//! The values that the engine sends and is sent: JSON.

use vstd::prelude::*;

use crate::num::{Num, Real};
#[allow(unused_imports)]
use crate::num::{of_int, NumV};
use crate::text::same;

verus! {

/// A JSON value.
#[derive(Debug)]
pub enum Json {
    Null,
    Bool(bool),
    /// A whole number that fits in 64 bits with a sign.
    Int(i64),
    /// A whole number that fits in 64 bits without a sign only.
    Big(u64),
    /// A number that is not whole, and as it is written.
    Real(Real, String),
    Str(String),
    Arr(Vec<Json>),
    /// The members of an object, in order.
    Obj(Vec<(String, Json)>),
}

/// What a JSON value is.
pub enum JV {
    Null,
    Bool(bool),
    Int(int),
    Real(NumV, Seq<char>),
    Str(Seq<char>),
    Arr(Seq<JV>),
    Obj(Seq<(Seq<char>, JV)>),
}

pub open spec fn jv(j: Json) -> JV
    decreases j,
{
    match j {
        Json::Null => JV::Null,
        Json::Bool(b) => JV::Bool(b),
        Json::Int(n) => JV::Int(n as int),
        Json::Big(n) => JV::Int(n as int),
        Json::Real(n, t) => JV::Real(n@, t@),
        Json::Str(s) => JV::Str(s@),
        Json::Arr(v) => JV::Arr(Seq::new(v@.len(), |i: int| if 0 <= i < v@.len() { jv(v@[i]) } else { JV::Null })),
        Json::Obj(v) => JV::Obj(
            Seq::new(
                v@.len(),
                |i: int| if 0 <= i < v@.len() { (v@[i].0@, jv(v@[i].1)) } else { (Seq::empty(), JV::Null) },
            ),
        ),
    }
}

/// The values of a list of JSON values.
pub open spec fn jvs(v: Seq<Json>) -> Seq<JV> {
    v.map_values(|j: Json| jv(j))
}

/// The first member with the key `k`.
pub open spec fn lookup(e: Seq<(Seq<char>, JV)>, k: Seq<char>) -> Option<JV>
    decreases e.len(),
{
    if e.len() == 0 {
        None
    } else if e[0].0 == k {
        Some(e[0].1)
    } else {
        lookup(e.drop_first(), k)
    }
}

pub open spec fn or_chars(o: Option<Seq<char>>, d: Seq<char>) -> Seq<char> {
    match o {
        Some(s) => s,
        None => d,
    }
}

pub open spec fn or_int(o: Option<int>, d: int) -> int {
    match o {
        Some(n) => n,
        None => d,
    }
}

impl JV {
    /// The member `k` of an object; nothing of any other value.
    pub open spec fn get(self, k: Seq<char>) -> Option<JV> {
        match self {
            JV::Obj(e) => lookup(e, k),
            _ => None,
        }
    }

    pub open spec fn str(self) -> Option<Seq<char>> {
        match self {
            JV::Str(s) => Some(s),
            _ => None,
        }
    }

    pub open spec fn i64(self) -> Option<int> {
        match self {
            JV::Int(n) => if i64::MIN <= n <= i64::MAX { Some(n) } else { None },
            _ => None,
        }
    }

    pub open spec fn u64(self) -> Option<int> {
        match self {
            JV::Int(n) => if 0 <= n <= u64::MAX { Some(n) } else { None },
            _ => None,
        }
    }

    pub open spec fn bool(self) -> Option<bool> {
        match self {
            JV::Bool(b) => Some(b),
            _ => None,
        }
    }

    /// The value of a number, as a mantissa of 53 bits holds it.
    pub open spec fn num(self) -> Option<NumV> {
        match self {
            JV::Int(n) => Some(of_int(n)),
            JV::Real(n, _) => Some(n),
            _ => None,
        }
    }

    pub open spec fn arr(self) -> Option<Seq<JV>> {
        match self {
            JV::Arr(v) => Some(v),
            _ => None,
        }
    }

    pub open spec fn get_str(self, k: Seq<char>) -> Option<Seq<char>> {
        match self.get(k) {
            Some(v) => v.str(),
            None => None,
        }
    }

    pub open spec fn str_or(self, k: Seq<char>, d: Seq<char>) -> Seq<char> {
        or_chars(self.get_str(k), d)
    }

    pub open spec fn get_i64(self, k: Seq<char>) -> Option<int> {
        match self.get(k) {
            Some(v) => v.i64(),
            None => None,
        }
    }

    pub open spec fn i64_or(self, k: Seq<char>, d: int) -> int {
        or_int(self.get_i64(k), d)
    }

    pub open spec fn get_u64(self, k: Seq<char>) -> Option<int> {
        match self.get(k) {
            Some(v) => v.u64(),
            None => None,
        }
    }

    pub open spec fn u64_or(self, k: Seq<char>, d: int) -> int {
        or_int(self.get_u64(k), d)
    }

    pub open spec fn get_num(self, k: Seq<char>) -> Option<NumV> {
        match self.get(k) {
            Some(v) => v.num(),
            None => None,
        }
    }

    /// The number under a key; zero where there is none.
    pub open spec fn num_at(self, k: Seq<char>) -> NumV {
        match self.get_num(k) {
            Some(n) => n,
            None => NumV::zero(),
        }
    }

    pub open spec fn get_bool(self, k: Seq<char>) -> Option<bool> {
        match self.get(k) {
            Some(v) => v.bool(),
            None => None,
        }
    }

    /// The member `k` is `true`.
    pub open spec fn flag(self, k: Seq<char>) -> bool {
        self.get_bool(k) == Some(true)
    }

    pub open spec fn get_arr(self, k: Seq<char>) -> Option<Seq<JV>> {
        match self.get(k) {
            Some(v) => v.arr(),
            None => None,
        }
    }

    /// The items of the list at `k`; none where there is no list.
    pub open spec fn items(self, k: Seq<char>) -> Seq<JV> {
        match self.get_arr(k) {
            Some(v) => v,
            None => Seq::empty(),
        }
    }
}

/// `o` holds a value whose view is the one of `v`, or neither holds any.
pub open spec fn opt_chars(o: Option<&str>) -> Option<Seq<char>> {
    match o {
        Some(s) => Some(s@),
        None => None,
    }
}

proof fn lemma_lookup_skip(e: Seq<(Seq<char>, JV)>, k: Seq<char>, i: int)
    requires
        0 <= i <= e.len(),
        forall|x: int| 0 <= x < i ==> e[x].0 != k,
    ensures
        lookup(e, k) == lookup(e.skip(i), k),
    decreases i,
{
    if i == 0 {
        assert(e.skip(0) == e);
    } else {
        assert(e.drop_first().skip(i - 1) == e.skip(i));
        assert forall|x: int| 0 <= x < i - 1 implies e.drop_first()[x].0 != k by {
            assert(e[x + 1].0 != k);
        }
        lemma_lookup_skip(e.drop_first(), k, i - 1);
        assert(e[0].0 != k);
    }
}

impl Json {
    pub open spec fn view(&self) -> JV {
        jv(*self)
    }

    /// A string value.
    pub fn text(s: &str) -> (r: Json)
        ensures
            r@ == JV::Str(s@),
    {
        Json::Str(s.to_owned())
    }

    /// An object without members.
    pub fn obj() -> (r: Json)
        ensures
            r is Obj,
            r@ == JV::Obj(Seq::empty()),
    {
        let r: Json = Json::Obj(Vec::new());
        assert(r@->Obj_0 =~= Seq::<(Seq<char>, JV)>::empty());
        r
    }

    /// The object with a member behind its members.
    pub fn with(self, k: &str, v: Json) -> (r: Json)
        requires
            self is Obj,
        ensures
            r is Obj,
            r@ == JV::Obj(self@->Obj_0.push((k@, v@))),
    {
        let ghost before = self@->Obj_0;
        match self {
            Json::Obj(m) => {
                let mut m: Vec<(String, Json)> = m;
                m.push((k.to_owned(), v));
                let r: Json = Json::Obj(m);
                assert(r@->Obj_0 =~= before.push((k@, v@)));
                r
            },
            _ => self,
        }
    }

    /// A whole number without a sign.
    pub fn whole(n: u64) -> (r: Json)
        ensures
            r@ == JV::Int(n as int),
    {
        if n <= 9223372036854775807 {
            Json::Int(n as i64)
        } else {
            Json::Big(n)
        }
    }

    pub fn get(&self, k: &str) -> (r: Option<&Json>)
        ensures
            match r {
                Some(v) => self@.get(k@) == Some(v@),
                None => self@.get(k@) is None,
            },
    {
        match self {
            Json::Obj(v) => {
                let ghost e = self@->Obj_0;
                let mut i: usize = 0;
                while i < v.len()
                    invariant
                        i <= v@.len(),
                        *self == Json::Obj(*v),
                        self@ == JV::Obj(e),
                        e.len() == v@.len(),
                        forall|x: int| 0 <= x < e.len() ==> e[x] == (v@[x].0@, v@[x].1@),
                        forall|x: int| 0 <= x < i ==> v@[x].0@ != k@,
                    decreases v@.len() - i,
                {
                    if same(v[i].0.as_str(), k) {
                        proof {
                            lemma_lookup_skip(e, k@, i as int);
                            assert(e.skip(i as int)[0] == e[i as int]);
                        }
                        return Some(&v[i].1);
                    }
                    i += 1;
                }
                proof {
                    lemma_lookup_skip(e, k@, e.len() as int);
                    assert(e.skip(e.len() as int).len() == 0);
                }
                None
            },
            _ => None,
        }
    }

    pub fn as_str(&self) -> (r: Option<&str>)
        ensures
            opt_chars(r) == self@.str(),
    {
        match self {
            Json::Str(s) => Some(s.as_str()),
            _ => None,
        }
    }

    pub fn as_i64(&self) -> (r: Option<i64>)
        ensures
            match r {
                Some(n) => self@.i64() == Some(n as int),
                None => self@.i64() is None,
            },
    {
        match self {
            Json::Int(n) => Some(*n),
            Json::Big(n) => if *n <= 9223372036854775807 { Some(*n as i64) } else { None },
            _ => None,
        }
    }

    pub fn as_u64(&self) -> (r: Option<u64>)
        ensures
            match r {
                Some(n) => self@.u64() == Some(n as int),
                None => self@.u64() is None,
            },
    {
        match self {
            Json::Int(n) => if *n >= 0 { Some(*n as u64) } else { None },
            Json::Big(n) => Some(*n),
            _ => None,
        }
    }

    pub fn as_bool(&self) -> (r: Option<bool>)
        ensures
            r == self@.bool(),
    {
        match self {
            Json::Bool(b) => Some(*b),
            _ => None,
        }
    }

    /// The value of a number, as a mantissa of 53 bits holds it.
    pub fn as_num(&self) -> (r: Option<Num>)
        ensures
            match r {
                Some(n) => n.wf() && self@.num() == Some(n@),
                None => self@.num() is None,
            },
    {
        match self {
            Json::Int(n) => Some(Num::of_i64(*n)),
            Json::Big(n) => Some(Num::of_u64(*n)),
            Json::Real(n, _) => Some(Num::of_real(n)),
            _ => None,
        }
    }

    pub fn as_arr(&self) -> (r: Option<&Vec<Json>>)
        ensures
            match r {
                Some(v) => self@.arr() == Some(jvs(v@)),
                None => self@.arr() is None,
            },
    {
        match self {
            Json::Arr(v) => {
                assert(self@->Arr_0 == jvs(v@));
                Some(v)
            },
            _ => None,
        }
    }

    pub fn get_str(&self, k: &str) -> (r: Option<&str>)
        ensures
            opt_chars(r) == self@.get_str(k@),
    {
        match self.get(k) {
            Some(v) => v.as_str(),
            None => None,
        }
    }

    pub fn str_or<'a>(&'a self, k: &str, d: &'a str) -> (r: &'a str)
        ensures
            r@ == self@.str_or(k@, d@),
    {
        match self.get_str(k) {
            Some(s) => s,
            None => d,
        }
    }

    pub fn get_i64(&self, k: &str) -> (r: Option<i64>)
        ensures
            match r {
                Some(n) => self@.get_i64(k@) == Some(n as int),
                None => self@.get_i64(k@) is None,
            },
    {
        match self.get(k) {
            Some(v) => v.as_i64(),
            None => None,
        }
    }

    pub fn i64_or(&self, k: &str, d: i64) -> (r: i64)
        ensures
            r == self@.i64_or(k@, d as int),
    {
        match self.get_i64(k) {
            Some(n) => n,
            None => d,
        }
    }

    pub fn get_u64(&self, k: &str) -> (r: Option<u64>)
        ensures
            match r {
                Some(n) => self@.get_u64(k@) == Some(n as int),
                None => self@.get_u64(k@) is None,
            },
    {
        match self.get(k) {
            Some(v) => v.as_u64(),
            None => None,
        }
    }

    pub fn u64_or(&self, k: &str, d: u64) -> (r: u64)
        ensures
            r == self@.u64_or(k@, d as int),
    {
        match self.get_u64(k) {
            Some(n) => n,
            None => d,
        }
    }

    pub fn get_num(&self, k: &str) -> (r: Option<Num>)
        ensures
            match r {
                Some(n) => n.wf() && self@.get_num(k@) == Some(n@),
                None => self@.get_num(k@) is None,
            },
    {
        match self.get(k) {
            Some(v) => v.as_num(),
            None => None,
        }
    }

    pub fn num_at(&self, k: &str) -> (r: Num)
        ensures
            r.wf(),
            r@ == self@.num_at(k@),
    {
        match self.get_num(k) {
            Some(n) => n,
            None => Num::zero(),
        }
    }

    pub fn get_bool(&self, k: &str) -> (r: Option<bool>)
        ensures
            r == self@.get_bool(k@),
    {
        match self.get(k) {
            Some(v) => v.as_bool(),
            None => None,
        }
    }

    /// The member `k` is `true`.
    pub fn flag(&self, k: &str) -> (r: bool)
        ensures
            r == self@.flag(k@),
    {
        match self.get_bool(k) {
            Some(b) => b,
            None => false,
        }
    }

    pub fn get_arr(&self, k: &str) -> (r: Option<&Vec<Json>>)
        ensures
            match r {
                Some(v) => self@.get_arr(k@) == Some(jvs(v@)),
                None => self@.get_arr(k@) is None,
            },
    {
        match self.get(k) {
            Some(v) => v.as_arr(),
            None => None,
        }
    }

    /// A copy of the value.
    pub fn copy(&self) -> (r: Json)
        ensures
            r@ == self@,
        decreases self,
    {
        match self {
            Json::Null => Json::Null,
            Json::Bool(b) => Json::Bool(*b),
            Json::Int(n) => Json::Int(*n),
            Json::Big(n) => Json::Big(*n),
            Json::Real(n, t) => Json::Real(*n, t.clone()),
            Json::Str(s) => Json::Str(s.clone()),
            Json::Arr(v) => {
                let mut out: Vec<Json> = Vec::new();
                let mut i: usize = 0;
                while i < v.len()
                    invariant
                        i <= v@.len(),
                        out@.len() == i,
                        *self == Json::Arr(*v),
                        forall|x: int| 0 <= x < i ==> out@[x]@ == v@[x]@,
                    decreases v@.len() - i,
                {
                    assert(decreases_to!(*self => self->Arr_0));
                    assert(decreases_to!(*v => v@));
                    assert(decreases_to!(v@ => v@[i as int]));
                    out.push(v[i].copy());
                    i += 1;
                }
                let r: Json = Json::Arr(out);
                assert(r@->Arr_0 =~= self@->Arr_0);
                r
            },
            Json::Obj(v) => {
                let mut out: Vec<(String, Json)> = Vec::new();
                let mut i: usize = 0;
                while i < v.len()
                    invariant
                        i <= v@.len(),
                        out@.len() == i,
                        *self == Json::Obj(*v),
                        forall|x: int| 0 <= x < i ==> out@[x].0@ == v@[x].0@ && out@[x].1@ == v@[x].1@,
                    decreases v@.len() - i,
                {
                    assert(decreases_to!(*self => self->Obj_0));
                    assert(decreases_to!(*v => v@));
                    assert(decreases_to!(v@ => v@[i as int]));
                    assert(decreases_to!(v@[i as int] => v@[i as int].1));
                    let (k, w): &(String, Json) = &v[i];
                    out.push((k.clone(), w.copy()));
                    i += 1;
                }
                let r: Json = Json::Obj(out);
                assert(r@->Obj_0 =~= self@->Obj_0);
                r
            },
        }
    }

}

/// Lists of one to five values.
pub fn list1(a: Json) -> (r: Vec<Json>)
    ensures
        jvs(r@) == seq![a@],
{
    let r: Vec<Json> = vec![a];
    assert(jvs(r@) =~= seq![a@]);
    r
}

pub fn list2(a: Json, b: Json) -> (r: Vec<Json>)
    ensures
        jvs(r@) == seq![a@, b@],
{
    let r: Vec<Json> = vec![a, b];
    assert(jvs(r@) =~= seq![a@, b@]);
    r
}

pub fn list3(a: Json, b: Json, c: Json) -> (r: Vec<Json>)
    ensures
        jvs(r@) == seq![a@, b@, c@],
{
    let r: Vec<Json> = vec![a, b, c];
    assert(jvs(r@) =~= seq![a@, b@, c@]);
    r
}

pub fn list4(a: Json, b: Json, c: Json, d: Json) -> (r: Vec<Json>)
    ensures
        jvs(r@) == seq![a@, b@, c@, d@],
{
    let r: Vec<Json> = vec![a, b, c, d];
    assert(jvs(r@) =~= seq![a@, b@, c@, d@]);
    r
}

pub fn list5(a: Json, b: Json, c: Json, d: Json, e: Json) -> (r: Vec<Json>)
    ensures
        jvs(r@) == seq![a@, b@, c@, d@, e@],
{
    let r: Vec<Json> = vec![a, b, c, d, e];
    assert(jvs(r@) =~= seq![a@, b@, c@, d@, e@]);
    r
}

/// No value.
pub fn list0() -> (r: Vec<Json>)
    ensures
        jvs(r@) == Seq::<JV>::empty(),
{
    let r: Vec<Json> = Vec::new();
    assert(jvs(r@) =~= Seq::<JV>::empty());
    r
}

/// A copy of a list of values.
pub fn copy_all(v: &Vec<Json>) -> (r: Vec<Json>)
    ensures
        jvs(r@) == jvs(v@),
{
    let mut out: Vec<Json> = Vec::new();
    let mut i: usize = 0;
    while i < v.len()
        invariant
            i <= v@.len(),
            out@.len() == i,
            forall|x: int| 0 <= x < i ==> out@[x]@ == v@[x]@,
        decreases v@.len() - i,
    {
        out.push(v[i].copy());
        i += 1;
    }
    assert(jvs(out@) == jvs(v@));
    out
}

} // verus!
