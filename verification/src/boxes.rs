//! The boxes: their list, the selection of several rows, and what is done to boxes and changes
//! as a whole.

use vstd::prelude::*;

use crate::app::{App, Boxes, Marks, Then, Ui};
#[allow(unused_imports)]
use crate::app::{pairs_v, StepV};
use crate::json::{list0, Json};
#[allow(unused_imports)]
use crate::json::{jvs, JV};
#[allow(unused_imports)]
use crate::lists::{less_one, rep_v};
use crate::text::{chars, decimal, own, same};
#[allow(unused_imports)]
use crate::text::{dec, strs};
use crate::types::Pane;

verus! {

/// `a` stands before `b`, or is the same text.
pub open spec fn text_le(a: Seq<char>, b: Seq<char>) -> bool
    decreases a.len(),
{
    if a.len() == 0 {
        true
    } else if b.len() == 0 {
        false
    } else if a[0] == b[0] {
        text_le(a.drop_first(), b.drop_first())
    } else {
        a[0] < b[0]
    }
}

pub(crate) fn le_text(a: &str, b: &str) -> (r: bool)
    ensures
        r == text_le(a@, b@),
{
    let x: Vec<char> = chars(a);
    let y: Vec<char> = chars(b);
    let mut i: usize = 0;
    assert(x@.skip(0) == a@ && y@.skip(0) == b@);
    loop
        invariant
            i <= x@.len(),
            i <= y@.len(),
            text_le(a@, b@) == text_le(x@.skip(i as int), y@.skip(i as int)),
        decreases x@.len() - i,
    {
        let ghost p = x@.skip(i as int);
        let ghost q = y@.skip(i as int);
        if i == x.len() {
            return true;
        }
        if i == y.len() {
            return false;
        }
        assert(p[0] == x@[i as int] && q[0] == y@[i as int]);
        if x[i] != y[i] {
            return x[i] < y[i];
        }
        assert(p.drop_first() == x@.skip(i + 1) && q.drop_first() == y@.skip(i + 1));
        i += 1;
    }
}

proof fn lemma_text_le_total(a: Seq<char>, b: Seq<char>)
    ensures
        text_le(a, b) || text_le(b, a),
    decreases a.len(),
{
    if a.len() > 0 && b.len() > 0 && a[0] == b[0] {
        lemma_text_le_total(a.drop_first(), b.drop_first());
    }
}

proof fn lemma_text_le_trans(a: Seq<char>, b: Seq<char>, c: Seq<char>)
    requires
        text_le(a, b),
        text_le(b, c),
    ensures
        text_le(a, c),
    decreases a.len(),
{
    if a.len() > 0 && b.len() > 0 && c.len() > 0 && a[0] == b[0] && b[0] == c[0] {
        lemma_text_le_trans(a.drop_first(), b.drop_first(), c.drop_first());
    }
}

/// The path by which a box is sorted.
pub open spec fn path_of(r: JV) -> Seq<char> {
    r.str_or("path"@, ""@)
}

/// A row put behind the rows of a sorted list that do not stand behind it.
pub open spec fn put_by_path(s: Seq<JV>, r: JV) -> Seq<JV>
    decreases s.len(),
{
    if s.len() == 0 {
        seq![r]
    } else if text_le(path_of(s.last()), path_of(r)) {
        s.push(r)
    } else {
        put_by_path(s.drop_last(), r).push(s.last())
    }
}

/// Rows sorted by path; rows of the same path keep their order.
pub open spec fn by_path(rows: Seq<JV>) -> Seq<JV>
    decreases rows.len(),
{
    if rows.len() == 0 {
        Seq::empty()
    } else {
        put_by_path(by_path(rows.drop_last()), rows.last())
    }
}

fn insert_by_path(v: &mut Vec<Json>, r: Json)
    ensures
        jvs(final(v)@) == put_by_path(jvs(old(v)@), r@),
{
    let ghost s = jvs(v@);
    let mut k: usize = v.len();
    assert(s.take(k as int) == s);
    assert(put_by_path(s, r@) =~= put_by_path(s.take(k as int), r@) + s.skip(k as int));
    while k > 0 && !le_text(v[k - 1].str_or("path", ""), r.str_or("path", ""))
        invariant
            k <= v@.len(),
            s == jvs(v@),
            v@ == old(v)@,
            put_by_path(s, r@) == put_by_path(s.take(k as int), r@) + s.skip(k as int),
        decreases k,
    {
        let ghost t = s.take(k as int);
        assert(t.last() == v@[k - 1]@);
        assert(t.drop_last() == s.take(k - 1));
        assert(put_by_path(t, r@) + s.skip(k as int) =~= put_by_path(s.take(k - 1), r@) + s.skip(k - 1));
        k -= 1;
    }
    let ghost t = s.take(k as int);
    assert(k > 0 ==> t.last() == v@[k - 1]@);
    assert(put_by_path(t, r@) =~= t.push(r@));
    v.insert(k, r);
    assert(jvs(v@) =~= s.take(k as int).push(r@) + s.skip(k as int));
}

fn sort_by_path(rows: Vec<Json>) -> (r: Vec<Json>)
    ensures
        jvs(r@) == by_path(jvs(rows@)),
{
    let mut out: Vec<Json> = Vec::new();
    let ghost rv = jvs(rows@);
    let mut i: usize = 0;
    assert(rv.take(0).len() == 0);
    assert(jvs(out@) =~= by_path(rv.take(0)));
    while i < rows.len()
        invariant
            i <= rows@.len(),
            rv == jvs(rows@),
            jvs(out@) == by_path(rv.take(i as int)),
        decreases rows@.len() - i,
    {
        assert(rv.take(i + 1).drop_last() == rv.take(i as int));
        assert(rv.take(i + 1).last() == rows@[i as int]@);
        insert_by_path(&mut out, rows[i].copy());
        i += 1;
    }
    assert(rv.take(rows@.len() as int) == rv);
    out
}

/// A list is sorted by path.
pub open spec fn is_by_path(s: Seq<JV>) -> bool {
    forall|i: int, j: int| 0 <= i <= j < s.len() ==> text_le(path_of(#[trigger] s[i]), path_of(#[trigger] s[j]))
}

proof fn lemma_put_by_path(s: Seq<JV>, r: JV)
    requires
        is_by_path(s),
    ensures
        is_by_path(put_by_path(s, r)),
        put_by_path(s, r).to_multiset() =~= s.to_multiset().insert(r),
        forall|i: int| 0 <= i < put_by_path(s, r).len() ==> (#[trigger] put_by_path(s, r)[i] == r || s.contains(
            put_by_path(s, r)[i],
        )),
    decreases s.len(),
{
    broadcast use vstd::seq_lib::group_to_multiset_ensures;

    lemma_text_le_total(path_of(r), path_of(r));
    if s.len() == 0 {
        assert(s.push(r) =~= seq![r]);
    } else if text_le(path_of(s.last()), path_of(r)) {
        let p = s.push(r);
        assert forall|i: int, j: int| 0 <= i <= j < p.len() implies text_le(
            path_of(#[trigger] p[i]),
            path_of(#[trigger] p[j]),
        ) by {
            if j == s.len() && i < j {
                assert(text_le(path_of(s[i]), path_of(s[s.len() - 1])));
                lemma_text_le_trans(path_of(s[i]), path_of(s.last()), path_of(r));
            }
        }
        assert forall|i: int| 0 <= i < p.len() implies (#[trigger] p[i] == r || s.contains(p[i])) by {
            if i < s.len() {
                assert(s[i] == p[i]);
            }
        }
    } else {
        let d = s.drop_last();
        lemma_put_by_path(d, r);
        let q = put_by_path(d, r);
        let p = q.push(s.last());
        lemma_text_le_total(path_of(s.last()), path_of(r));
        lemma_text_le_total(path_of(s.last()), path_of(s.last()));
        assert forall|i: int, j: int| 0 <= i <= j < p.len() implies text_le(
            path_of(#[trigger] p[i]),
            path_of(#[trigger] p[j]),
        ) by {
            if j == q.len() && i < j {
                if q[i] != r {
                    let k = choose|k: int| 0 <= k < d.len() && d[k] == q[i];
                    assert(text_le(path_of(s[k]), path_of(s[s.len() - 1])));
                }
            }
        }
        assert forall|i: int| 0 <= i < p.len() implies (#[trigger] p[i] == r || s.contains(p[i])) by {
            if i < q.len() {
                if q[i] != r {
                    let k = choose|k: int| 0 <= k < d.len() && d[k] == q[i];
                    assert(s[k] == p[i]);
                }
            } else {
                assert(s[s.len() - 1] == p[i]);
            }
        }
        assert(s =~= d.push(s.last()));
        assert(p.to_multiset() =~= s.to_multiset().insert(r));
    }
}

/// The boxes are shown sorted by path, and they are the boxes that the engine sent.
pub proof fn law_boxes_are_sorted(rows: Seq<JV>)
    ensures
        is_by_path(by_path(rows)),
        by_path(rows).to_multiset() =~= rows.to_multiset(),
    decreases rows.len(),
{
    broadcast use vstd::seq_lib::group_to_multiset_ensures;

    if rows.len() > 0 {
        law_boxes_are_sorted(rows.drop_last());
        lemma_put_by_path(by_path(rows.drop_last()), rows.last());
        assert(rows =~= rows.drop_last().push(rows.last()));
    }
}

/// The member `k` of each row that has it as a text.
pub open spec fn keys_of(rows: Seq<JV>, k: Seq<char>) -> Seq<Seq<char>>
    decreases rows.len(),
{
    if rows.len() == 0 {
        Seq::empty()
    } else {
        match rows.last().get_str(k) {
            Some(s) => keys_of(rows.drop_last(), k).push(s),
            None => keys_of(rows.drop_last(), k),
        }
    }
}

fn collect_keys(rows: &Vec<Json>, k: &str) -> (r: Vec<String>)
    ensures
        strs(r@) == keys_of(jvs(rows@), k@),
{
    let mut out: Vec<String> = Vec::new();
    let ghost rv = jvs(rows@);
    let mut i: usize = 0;
    assert(rv.take(0).len() == 0);
    assert(strs(out@) =~= keys_of(rv.take(0), k@));
    while i < rows.len()
        invariant
            i <= rows@.len(),
            rv == jvs(rows@),
            strs(out@) == keys_of(rv.take(i as int), k@),
        decreases rows@.len() - i,
    {
        assert(rv.take(i + 1).drop_last() == rv.take(i as int));
        assert(rv.take(i + 1).last() == rows@[i as int]@);
        match rows[i].get_str(k) {
            Some(s) => {
                let ghost before = strs(out@);
                out.push(own(s));
                assert(strs(out@) =~= before.push(s@));
            },
            None => {},
        }
        i += 1;
    }
    assert(rv.take(rows@.len() as int) == rv);
    out
}

/// `k` is in the list.
pub fn holds_key(v: &Vec<String>, k: &str) -> (r: bool)
    ensures
        r == strs(v@).contains(k@),
{
    let mut i: usize = 0;
    while i < v.len()
        invariant
            i <= v@.len(),
            forall|x: int| 0 <= x < i ==> v@[x]@ != k@,
        decreases v@.len() - i,
    {
        if same(v[i].as_str(), k) {
            assert(strs(v@)[i as int] == k@);
            return true;
        }
        i += 1;
    }
    false
}

/// A list without `k`.
pub open spec fn without(v: Seq<Seq<char>>, k: Seq<char>) -> Seq<Seq<char>>
    decreases v.len(),
{
    if v.len() == 0 {
        Seq::empty()
    } else if v.last() == k {
        without(v.drop_last(), k)
    } else {
        without(v.drop_last(), k).push(v.last())
    }
}

fn drop_key(v: &Vec<String>, k: &str) -> (r: Vec<String>)
    ensures
        strs(r@) == without(strs(v@), k@),
{
    let mut out: Vec<String> = Vec::new();
    let ghost sv = strs(v@);
    let mut i: usize = 0;
    assert(sv.take(0).len() == 0);
    assert(strs(out@) =~= without(sv.take(0), k@));
    while i < v.len()
        invariant
            i <= v@.len(),
            sv == strs(v@),
            strs(out@) == without(sv.take(i as int), k@),
        decreases v@.len() - i,
    {
        assert(sv.take(i + 1).drop_last() == sv.take(i as int));
        assert(sv.take(i + 1).last() == v@[i as int]@);
        if !same(v[i].as_str(), k) {
            let ghost before = strs(out@);
            out.push(v[i].clone());
            assert(strs(out@) =~= before.push(v@[i as int]@));
        }
        i += 1;
    }
    assert(sv.take(v@.len() as int) == sv);
    out
}

/// The selection with a row taken in, or out where it is in.
pub open spec fn toggled(v: Seq<Seq<char>>, k: Seq<char>) -> Seq<Seq<char>> {
    if v.contains(k) { without(v, k) } else { v.push(k) }
}

/// The selection with more rows taken in.
pub open spec fn joined_with(v: Seq<Seq<char>>, more: Seq<Seq<char>>) -> Seq<Seq<char>>
    decreases more.len(),
{
    if more.len() == 0 {
        v
    } else {
        let before = joined_with(v, more.drop_last());
        if before.contains(more.last()) { before } else { before.push(more.last()) }
    }
}

/// The rows of a list that are selected.
pub open spec fn chosen(keys: Seq<Seq<char>>, marks: Seq<Seq<char>>) -> Seq<Seq<char>>
    decreases keys.len(),
{
    if keys.len() == 0 {
        Seq::empty()
    } else if marks.contains(keys.last()) {
        chosen(keys.drop_last(), marks).push(keys.last())
    } else {
        chosen(keys.drop_last(), marks)
    }
}

proof fn lemma_without(v: Seq<Seq<char>>, k: Seq<char>)
    ensures
        forall|x: Seq<char>| #[trigger] without(v, k).contains(x) <==> v.contains(x) && x != k,
        v.no_duplicates() ==> without(v, k).no_duplicates(),
    decreases v.len(),
{
    if v.len() > 0 {
        let d = v.drop_last();
        lemma_without(d, k);
        let w = without(v, k);
        let wd = without(d, k);
        assert forall|x: Seq<char>| #[trigger] w.contains(x) <==> v.contains(x) && x != k by {
            if w.contains(x) {
                let i = choose|i: int| 0 <= i < w.len() && w[i] == x;
                if v.last() == k {
                    assert(wd.contains(x));
                } else if i < wd.len() {
                    assert(wd[i] == x);
                    assert(wd.contains(x));
                }
                if wd.contains(x) {
                    let j = choose|j: int| 0 <= j < d.len() && d[j] == x;
                    assert(v[j] == x);
                } else {
                    assert(v[v.len() - 1] == x);
                }
            }
            if v.contains(x) && x != k {
                let j = choose|j: int| 0 <= j < v.len() && v[j] == x;
                if j < d.len() {
                    assert(d[j] == x);
                    assert(wd.contains(x));
                    let i = choose|i: int| 0 <= i < wd.len() && wd[i] == x;
                    assert(w[i] == x);
                } else {
                    assert(w[w.len() - 1] == x);
                }
            }
        }
        if v.no_duplicates() {
            assert(d.no_duplicates());
            if v.last() != k {
                assert(!wd.contains(v.last())) by {
                    if wd.contains(v.last()) {
                        let j = choose|j: int| 0 <= j < d.len() && d[j] == v.last();
                        assert(v[j] == v[v.len() - 1]);
                    }
                }
                assert(w.no_duplicates());
            }
        }
    }
}

/// Toggling the same row twice selects the same rows as before, each still once.
pub proof fn law_toggling_twice_changes_nothing(v: Seq<Seq<char>>, k: Seq<char>)
    requires
        v.no_duplicates(),
    ensures
        toggled(v, k).no_duplicates(),
        forall|x: Seq<char>| #[trigger] toggled(v, k).contains(x) <==> (v.contains(x) <==> x != k),
        forall|x: Seq<char>| #[trigger] toggled(toggled(v, k), k).contains(x) <==> v.contains(x),
{
    lemma_without(v, k);
    let t = toggled(v, k);
    if v.contains(k) {
        assert(!t.contains(k));
        assert forall|x: Seq<char>| #[trigger] toggled(t, k).contains(x) <==> v.contains(x) by {
            let u = t.push(k);
            if u.contains(x) {
                let i = choose|i: int| 0 <= i < u.len() && u[i] == x;
                if i < t.len() {
                    assert(t.contains(x));
                }
            }
            if v.contains(x) {
                if x == k {
                    assert(u[u.len() - 1] == x);
                } else {
                    assert(t.contains(x));
                    let i = choose|i: int| 0 <= i < t.len() && t[i] == x;
                    assert(u[i] == x);
                }
            }
        }
    } else {
        assert(t[t.len() - 1] == k);
        assert(t.contains(k));
        lemma_without(t, k);
        assert forall|x: Seq<char>| #[trigger] t.contains(x) <==> (v.contains(x) || x == k) by {
            if v.contains(x) {
                let i = choose|i: int| 0 <= i < v.len() && v[i] == x;
                assert(t[i] == x);
            }
            if t.contains(x) {
                let i = choose|i: int| 0 <= i < t.len() && t[i] == x;
                if i < v.len() {
                    assert(v[i] == x);
                }
            }
        }
    }
}

impl App {
    /// The change that `refresh_sessions` makes.
    pub open spec fn refresh_sessions_v(self, post: App) -> bool {
        &&& (post == (App { todo: post.todo, ..self }))
        &&& (post.plan() == seq![
                StepV::Call("session_dicts"@, Seq::empty(), Then::Sessions),
                StepV::Call("oci.images"@, Seq::empty(), Then::Images),
            ] + self.plan())
    }

    /// Asks for the boxes and the loaded images.
    pub fn refresh_sessions(&mut self)
        ensures
            old(self).refresh_sessions_v(*final(self)),
    {
        self.first_call("oci.images", list0(), Then::Images);
        self.first_call("session_dicts", list0(), Then::Sessions);
        assert(self.plan() =~= seq![
            StepV::Call("session_dicts"@, Seq::empty(), Then::Sessions),
            StepV::Call("oci.images"@, Seq::empty(), Then::Images),
        ] + old(self).plan());
    }

    /// What the boxes that the engine sent change.
    pub open spec fn sessions_v(self, r: Result<JV, Seq<char>>, post: App) -> bool {
        match r {
            Ok(JV::Arr(a)) => {
                &&& jvs(post.boxes.sessions@) == by_path(a)
                &&& post == (App {
                    boxes: (Boxes {
                        sessions: post.boxes.sessions,
                        sel: if self.boxes.sel >= by_path(a).len() {
                            less_one(by_path(a).len() as int) as usize
                        } else {
                            self.boxes.sel
                        },
                        ..self.boxes
                    }),
                    ..self
                })
            },
            Ok(_) => {
                &&& post.boxes.sessions@.len() == 0
                &&& post == (App { boxes: (Boxes { sessions: post.boxes.sessions, ..self.boxes }), ..self })
            },
            Err(e) => self.says(post, "session_dicts: "@ + e),
        }
    }

    /// Takes in the boxes.
    pub fn sessions_reply(&mut self, r: Result<Json, String>)
        ensures
            old(self).sessions_v(rep_v(r), *final(self)),
    {
        match r {
            Ok(j) => match j {
                Json::Arr(a) => {
                    assert(j@->Arr_0 =~= jvs(a@));
                    let rows: Vec<Json> = sort_by_path(a);
                    let n: usize = rows.len();
                    assert(n == jvs(rows@).len());
                    self.boxes.sessions = rows;
                    if self.boxes.sel >= n {
                        self.boxes.sel = if n > 0 { n - 1 } else { 0 };
                    }
                },
                _ => {
                    self.boxes.sessions = Vec::new();
                },
            },
            Err(e) => {
                let s: String = own("session_dicts: ").concat(e.as_str());
                self.say(s.as_str());
            },
        }
    }

    /// The names and references of the images that the engine told of.
    pub open spec fn images_of(rows: Seq<JV>) -> Seq<(Seq<char>, Seq<char>)>
        decreases rows.len(),
    {
        if rows.len() == 0 {
            Seq::empty()
        } else {
            let before = App::images_of(rows.drop_last());
            match (rows.last().get_str("name"@), rows.last().get_str("reference"@)) {
                (Some(n), Some(f)) => before.push((n, f)),
                _ => before,
            }
        }
    }

    /// The change that `images_reply` makes.
    pub open spec fn images_reply_v(self, r: Result<Json, String>, post: App) -> bool {
        &&& (post == (App { boxes: (Boxes { images: post.boxes.images, ..self.boxes }), ..self }))
        &&& (pairs_v(post.boxes.images@) == (match rep_v(r) {
                Ok(JV::Arr(a)) => App::images_of(a),
                _ => Seq::empty(),
            }))
    }

    /// Takes in the loaded images.
    pub fn images_reply(&mut self, r: Result<Json, String>)
        ensures
            old(self).images_reply_v(r, *final(self)),
    {
        let mut out: Vec<(String, String)> = Vec::new();
        assert(pairs_v(out@) =~= Seq::empty());
        match &r {
            Ok(j) => match j.as_arr() {
                Some(a) => {
                    let ghost av = jvs(a@);
                    let mut i: usize = 0;
                    assert(av.take(0).len() == 0);
                    while i < a.len()
                        invariant
                            i <= a@.len(),
                            av == jvs(a@),
                            pairs_v(out@) == App::images_of(av.take(i as int)),
                        decreases a@.len() - i,
                    {
                        assert(av.take(i + 1).drop_last() == av.take(i as int));
                        assert(av.take(i + 1).last() == a@[i as int]@);
                        match (a[i].get_str("name"), a[i].get_str("reference")) {
                            (Some(n), Some(f)) => {
                                let ghost before = pairs_v(out@);
                                out.push((own(n), own(f)));
                                assert(pairs_v(out@) =~= before.push((n@, f@)));
                            },
                            _ => {},
                        }
                        i += 1;
                    }
                    assert(av.take(a@.len() as int) == av);
                },
                None => {},
            },
            Err(_) => {},
        }
        self.boxes.images = out;
    }

    /// The keys of the rows of the list that has the focus, where its rows can be selected.
    pub open spec fn row_keys(self) -> Seq<Seq<char>> {
        match self.ui.focus {
            Pane::Sessions => keys_of(jvs(self.boxes.sessions@), "session_id"@),
            Pane::Changes => keys_of(jvs(self.lists.changes.rows@), "path"@),
            _ => Seq::empty(),
        }
    }

    pub fn mark_row_keys(&self) -> (r: Vec<String>)
        ensures
            strs(r@) == self.row_keys(),
    {
        match self.ui.focus {
            Pane::Sessions => collect_keys(&self.boxes.sessions, "session_id"),
            Pane::Changes => collect_keys(&self.lists.changes.rows, "path"),
            _ => {
                let r: Vec<String> = Vec::new();
                assert(strs(r@) =~= Seq::<Seq<char>>::empty());
                r
            },
        }
    }

    /// The rows of the pane that has the focus can be selected.
    pub open spec fn selectable(self) -> bool {
        self.ui.focus == Pane::Sessions || self.ui.focus == Pane::Changes
    }

    /// The row that the cursor is on.
    pub open spec fn cursor_row(self) -> usize {
        match self.ui.focus {
            Pane::Sessions => self.boxes.sel,
            Pane::Changes => self.lists.changes.sel,
            _ => 0,
        }
    }

    pub fn mark_cursor(&self) -> (r: usize)
        ensures
            r == self.cursor_row(),
    {
        match self.ui.focus {
            Pane::Sessions => self.boxes.sel,
            Pane::Changes => self.lists.changes.sel,
            _ => 0,
        }
    }

    pub fn selectable_pane(&self) -> (r: Option<Pane>)
        ensures
            r == (if self.selectable() { Some(self.ui.focus) } else { None }),
    {
        match self.ui.focus {
            Pane::Sessions | Pane::Changes => Some(self.ui.focus),
            _ => None,
        }
    }

    /// The selection as it counts on the pane that has the focus: one that was made on another
    /// pane is gone.
    pub open spec fn marks_here(self) -> Seq<Seq<char>> {
        if self.boxes.marks.scope == Some(self.ui.focus) { strs(self.boxes.marks.keys@) } else { Seq::empty() }
    }

    /// The selection has been made on the pane that has the focus.
    fn scope_is_here(&self) -> (r: bool)
        ensures
            r == (self.boxes.marks.scope == Some(self.ui.focus)),
    {
        match self.boxes.marks.scope {
            Some(p) => p == self.ui.focus,
            None => false,
        }
    }

    /// Drops a selection that was made on another pane.
    fn ensure_mark_scope(&mut self)
        requires
            old(self).selectable(),
        ensures
            strs(final(self).boxes.marks.keys@) == old(self).marks_here(),
            final(self).boxes.marks.scope == Some(old(self).ui.focus),
            final(self).boxes.marks.anchor == (if old(self).boxes.marks.scope == Some(old(self).ui.focus) {
                old(self).boxes.marks.anchor
            } else {
                None
            }),
            *final(self) == (App {
                boxes: (Boxes { marks: final(self).boxes.marks, ..old(self).boxes }),
                ..*old(self)
            }),
    {
        if !self.scope_is_here() {
            self.boxes.marks.keys = Vec::new();
            assert(strs(self.boxes.marks.keys@) =~= Seq::<Seq<char>>::empty());
            self.boxes.marks.anchor = None;
            self.boxes.marks.scope = Some(self.ui.focus);
        }
    }

    /// What selecting or unselecting the row at the cursor changes.
    pub open spec fn toggle_mark_v(self, post: App) -> bool {
        if !self.selectable() {
            self.says(post, "select works on the Boxes and Changes lists"@)
        } else {
            let idx = self.cursor_row();
            &&& post.boxes.marks.scope == Some(self.ui.focus)
            &&& post == (App {
                boxes: (Boxes { marks: post.boxes.marks, ..self.boxes }),
                ui: (Ui { status: post.ui.status, ..self.ui }),
                ..self
            })
            &&& if idx < self.row_keys().len() {
                &&& strs(post.boxes.marks.keys@) == toggled(self.marks_here(), self.row_keys()[idx as int])
                &&& post.boxes.marks.anchor == Some(idx)
                &&& post.ui.status@ == dec(post.boxes.marks.keys@.len() as int) + " selected"@
            } else {
                &&& strs(post.boxes.marks.keys@) == self.marks_here()
                &&& post.boxes.marks.anchor == (if self.boxes.marks.scope == Some(self.ui.focus) {
                    self.boxes.marks.anchor
                } else {
                    None
                })
                &&& post.ui.status == self.ui.status
            }
        }
    }

    /// Selects the row at the cursor, or unselects it.
    pub fn toggle_mark(&mut self)
        ensures
            old(self).toggle_mark_v(*final(self)),
    {
        if self.selectable_pane().is_none() {
            self.say("select works on the Boxes and Changes lists");
            return;
        }
        let keys: Vec<String> = self.mark_row_keys();
        assert(keys@.len() == strs(keys@).len());
        let idx: usize = self.mark_cursor();
        self.ensure_mark_scope();
        if idx < keys.len() {
            let k: &str = keys[idx].as_str();
            assert(strs(keys@)[idx as int] == k@);
            let ghost before = strs(self.boxes.marks.keys@);
            if holds_key(&self.boxes.marks.keys, k) {
                let rest: Vec<String> = drop_key(&self.boxes.marks.keys, k);
                self.boxes.marks.keys = rest;
            } else {
                self.boxes.marks.keys.push(own(k));
                assert(strs(self.boxes.marks.keys@) =~= before.push(k@));
            }
            self.boxes.marks.anchor = Some(idx);
            let n: usize = self.boxes.marks.keys.len();
            let s: String = decimal(n as u64).concat(" selected");
            self.say(s.as_str());
        }
    }

    /// What selecting a range changes.
    pub open spec fn range_mark_v(self, post: App) -> bool {
        if !self.selectable() {
            post == self
        } else {
            let keys = self.row_keys();
            let cur = self.cursor_row();
            let anchor = match self.boxes.marks.anchor {
                Some(a) => if self.boxes.marks.scope == Some(self.ui.focus) { a } else { cur },
                None => cur,
            };
            let lo = if anchor <= cur { anchor } else { cur };
            let hi = if anchor <= cur { cur } else { anchor };
            &&& strs(post.boxes.marks.keys@) == (if hi < keys.len() {
                joined_with(self.marks_here(), keys.subrange(lo as int, hi + 1))
            } else {
                self.marks_here()
            })
            &&& post.boxes.marks.anchor == Some(cur)
            &&& post.boxes.marks.scope == Some(self.ui.focus)
            &&& post.ui.status@ == dec(post.boxes.marks.keys@.len() as int) + " selected"@
            &&& post == (App {
                boxes: (Boxes { marks: post.boxes.marks, ..self.boxes }),
                ui: (Ui { status: post.ui.status, ..self.ui }),
                ..self
            })
        }
    }

    /// Selects the rows from the last one that was selected alone to the one at the cursor.
    pub fn range_mark(&mut self)
        ensures
            old(self).range_mark_v(*final(self)),
    {
        if self.selectable_pane().is_none() {
            return;
        }
        let keys: Vec<String> = self.mark_row_keys();
        let ghost kv = strs(keys@);
        assert(keys@.len() == kv.len());
        let cur: usize = self.mark_cursor();
        self.ensure_mark_scope();
        let ghost mid = *self;
        let anchor: usize = match self.boxes.marks.anchor {
            Some(a) => a,
            None => cur,
        };
        let lo: usize = if anchor <= cur { anchor } else { cur };
        let hi: usize = if anchor <= cur { cur } else { anchor };
        if hi < keys.len() {
            let ghost base = strs(self.boxes.marks.keys@);
            let mut i: usize = lo;
            assert(kv.subrange(lo as int, lo as int).len() == 0);
            while i <= hi
                invariant
                    lo <= i <= hi + 1,
                    hi < keys@.len(),
                    hi < usize::MAX,
                    kv == strs(keys@),
                    strs(self.boxes.marks.keys@) == joined_with(base, kv.subrange(lo as int, i as int)),
                    *self == (App {
                        boxes: (Boxes {
                            marks: (Marks { keys: self.boxes.marks.keys, ..mid.boxes.marks }),
                            ..mid.boxes
                        }),
                        ..mid
                    }),
                decreases hi + 1 - i,
            {
                let ghost t = kv.subrange(lo as int, i + 1);
                assert(t.drop_last() == kv.subrange(lo as int, i as int));
                assert(t.last() == keys@[i as int]@);
                let k: &str = keys[i].as_str();
                if !holds_key(&self.boxes.marks.keys, k) {
                    let ghost before = strs(self.boxes.marks.keys@);
                    self.boxes.marks.keys.push(own(k));
                    assert(strs(self.boxes.marks.keys@) =~= before.push(k@));
                }
                i += 1;
            }
        }
        self.boxes.marks.anchor = Some(cur);
        let n: usize = self.boxes.marks.keys.len();
        let s: String = decimal(n as u64).concat(" selected");
        self.say(s.as_str());
    }

    /// What clearing the selection changes.
    pub open spec fn clear_marks_v(self, post: App) -> bool {
        if self.boxes.marks.keys@.len() == 0 {
            post == self
        } else {
            &&& post.boxes.marks.keys@.len() == 0
            &&& post.boxes.marks.scope is None
            &&& post.boxes.marks.anchor is None
            &&& post.ui.status@ == "selection cleared"@
            &&& post == (App {
                boxes: (Boxes { marks: post.boxes.marks, ..self.boxes }),
                ui: (Ui { status: post.ui.status, ..self.ui }),
                ..self
            })
        }
    }

    /// Clears the selection; tells whether there was one.
    pub fn clear_marks(&mut self) -> (r: bool)
        ensures
            r == (old(self).boxes.marks.keys@.len() > 0),
            old(self).clear_marks_v(*final(self)),
    {
        if self.boxes.marks.keys.len() == 0 {
            return false;
        }
        self.boxes.marks.keys = Vec::new();
        self.boxes.marks.anchor = None;
        self.boxes.marks.scope = None;
        self.say("selection cleared");
        true
    }

    /// The selected rows of the pane that has the focus, in their order.
    pub open spec fn marked(self) -> Seq<Seq<char>> {
        chosen(self.row_keys(), self.marks_here())
    }

    pub fn marked_here(&self) -> (r: Vec<String>)
        ensures
            strs(r@) == self.marked(),
    {
        let mut out: Vec<String> = Vec::new();
        assert(strs(out@) =~= Seq::<Seq<char>>::empty());
        let keys: Vec<String> = self.mark_row_keys();
        let ghost kv = strs(keys@);
        let here: bool = self.scope_is_here();
        let mut i: usize = 0;
        assert(kv.take(0).len() == 0);
        while i < keys.len()
            invariant
                i <= keys@.len(),
                kv == strs(keys@),
                here == (self.boxes.marks.scope == Some(self.ui.focus)),
                strs(out@) == chosen(kv.take(i as int), self.marks_here()),
            decreases keys@.len() - i,
        {
            assert(kv.take(i + 1).drop_last() == kv.take(i as int));
            assert(kv.take(i + 1).last() == keys@[i as int]@);
            if here && holds_key(&self.boxes.marks.keys, keys[i].as_str()) {
                let ghost before = strs(out@);
                out.push(keys[i].clone());
                assert(strs(out@) =~= before.push(keys@[i as int]@));
            }
            i += 1;
        }
        assert(kv.take(keys@.len() as int) == kv);
        out
    }

    /// The row of that key is selected.
    pub fn is_marked(&self, k: &str) -> (r: bool)
        ensures
            r == self.marks_here().contains(k@),
    {
        self.scope_is_here() && holds_key(&self.boxes.marks.keys, k)
    }
}

/// A selection belongs to the list that it was made on: it does not count on another.
pub proof fn law_selection_belongs_to_one_list(a: App, b: App)
    requires
        a.boxes.marks.scope == Some(a.ui.focus),
        b.boxes == a.boxes,
        b.ui.focus != a.ui.focus,
    ensures
        b.marks_here() == Seq::<Seq<char>>::empty(),
{
}

/// A selection of changes does not outlive the box that they are of.
pub proof fn law_selection_ends_with_its_box(a: App, b: App)
    requires
        a.boxes.marks.scope == Some(Pane::Changes),
        a.box_moved_v(b),
    ensures
        b.marks_here() == Seq::<Seq<char>>::empty(),
        (App { ui: (Ui { focus: Pane::Changes, ..b.ui }), ..b }).marks_here() == Seq::<Seq<char>>::empty(),
{
}

proof fn lemma_joined_holds(v: Seq<Seq<char>>, more: Seq<Seq<char>>, k: Seq<char>)
    ensures
        joined_with(v, more).contains(k) <==> v.contains(k) || more.contains(k),
    decreases more.len(),
{
    if more.len() > 0 {
        lemma_joined_holds(v, more.drop_last(), k);
        let before = joined_with(v, more.drop_last());
        assert(more =~= more.drop_last().push(more.last()));
        if more.contains(k) && k != more.last() {
            let i = more.index_of(k);
            assert(more.drop_last()[i] == k);
        }
        if more.drop_last().contains(k) {
            let i = more.drop_last().index_of(k);
            assert(more[i] == k);
        }
        assert(more[more.len() - 1] == more.last());
        assert(before.push(more.last()).contains(k) <==> before.contains(k) || k == more.last()) by {
            let all = before.push(more.last());
            if before.contains(k) {
                assert(all[before.index_of(k)] == k);
            }
            assert(all[before.len() as int] == more.last());
        }
    }
}

/// A range selects every row from the one that was selected last to the one at the cursor, and
/// unselects none.
pub proof fn law_range_selects_all_between(a: App, b: App, anchor: usize, k: Seq<char>)
    requires
        a.selectable(),
        a.boxes.marks.scope == Some(a.ui.focus),
        a.boxes.marks.anchor == Some(anchor),
        anchor < a.row_keys().len(),
        0 <= a.cursor_row() < a.row_keys().len(),
        a.range_mark_v(b),
    ensures
        strs(b.boxes.marks.keys@).contains(k) <==> a.marks_here().contains(k) || exists|i: int|
            (anchor <= i <= a.cursor_row() || a.cursor_row() <= i <= anchor) && #[trigger] a.row_keys()[i] == k,
{
    let keys = a.row_keys();
    let cur = a.cursor_row() as int;
    let lo = if anchor <= cur { anchor as int } else { cur };
    let hi = if anchor <= cur { cur } else { anchor as int };
    let part = keys.subrange(lo, hi + 1);
    lemma_joined_holds(a.marks_here(), part, k);
    if part.contains(k) {
        let j = part.index_of(k);
        assert(keys[lo + j] == k);
    }
    if exists|i: int| lo <= i <= hi && #[trigger] keys[i] == k {
        let i = choose|i: int| lo <= i <= hi && #[trigger] keys[i] == k;
        assert(part[i - lo] == k);
    }
}

} // verus!
