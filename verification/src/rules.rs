//! Clauses: what a filter or a rule asks of a row, and how a list of clauses is evaluated.

use vstd::prelude::*;

use crate::text::{chars, own, same, trim};
#[allow(unused_imports)]
use crate::text::trimmed;

verus! {

/// How a clause is combined with the ones before it.
#[derive(Clone, Copy, Debug, PartialEq, Eq, Structural)]
pub enum Join {
    And,
    Or,
}

/// What is matched: a kind of text of the row, against a pattern.
#[derive(Debug)]
pub struct Match {
    pub kind: String,
    pub pattern: String,
}

/// One clause of a filter or a rule.
#[derive(Debug)]
pub struct Clause {
    pub m: Match,
    pub join: Join,
    pub negate: bool,
    pub enabled: bool,
}

/// What a clause is.
pub struct ClauseV {
    pub kind: Seq<char>,
    pub pattern: Seq<char>,
    pub join: Join,
    pub negate: bool,
    pub enabled: bool,
}

impl Clause {
    pub open spec fn view(&self) -> ClauseV {
        ClauseV {
            kind: self.m.kind@,
            pattern: self.m.pattern@,
            join: self.join,
            negate: self.negate,
            enabled: self.enabled,
        }
    }

    /// A copy of the clause.
    pub fn copy(&self) -> (r: Clause)
        ensures
            r@ == self@,
    {
        Clause {
            m: Match { kind: self.m.kind.clone(), pattern: self.m.pattern.clone() },
            join: self.join,
            negate: self.negate,
            enabled: self.enabled,
        }
    }
}

/// The clauses of a list.
pub open spec fn clauses(v: Seq<Clause>) -> Seq<ClauseV> {
    v.map_values(|c: Clause| c@)
}

/// A copy of a list of clauses.
pub fn copy_clauses(v: &Vec<Clause>) -> (r: Vec<Clause>)
    ensures
        clauses(r@) == clauses(v@),
{
    let mut out: Vec<Clause> = Vec::new();
    let mut i: usize = 0;
    while i < v.len()
        invariant
            i <= v@.len(),
            out@.len() == i,
            forall|k: int| 0 <= k < i ==> out@[k]@ == v@[k]@,
        decreases v@.len() - i,
    {
        out.push(v[i].copy());
        i += 1;
    }
    assert(clauses(out@) == clauses(v@));
    out
}

/// A character with a meaning of its own in a pattern.
pub open spec fn is_meta(c: char) -> bool {
    c == '*' || c == '?'
}

/// A pattern that holds neither a wildcard nor a directory: plain text to look for.
pub open spec fn is_bare(p: Seq<char>) -> bool {
    p.len() > 0 && forall|i: int| 0 <= i < p.len() ==> !is_meta(#[trigger] p[i]) && p[i] != '/'
}

/// Plain text as a pattern for anything that holds it.
pub open spec fn wrapped(p: Seq<char>) -> Seq<char> {
    if is_bare(p) { "*"@ + p + "*"@ } else { p }
}

/// Makes plain text find everything that holds it; leaves a pattern as it is.
pub fn wrap_bare_as_substring(p: &str) -> (r: String)
    ensures
        r@ == wrapped(p@),
{
    let v: Vec<char> = chars(p);
    let n: usize = v.len();
    let mut i: usize = 0;
    while i < n && !(v[i] == '*' || v[i] == '?' || v[i] == '/')
        invariant
            i <= n == v@.len(),
            v@ == p@,
            forall|k: int| 0 <= k < i ==> !is_meta(#[trigger] p@[k]) && p@[k] != '/',
        decreases n - i,
    {
        i += 1;
    }
    if n > 0 && i == n {
        own("*").concat(p).concat("*")
    } else {
        assert(i < n ==> is_meta(p@[i as int]) || p@[i as int] == '/');
        own(p)
    }
}

/// `s` matches the pattern `p`: `?` stands for one character and `*` for any number of
/// characters, neither for a slash; `**` stands for any number of any characters.
pub open spec fn glob(p: Seq<char>, s: Seq<char>) -> bool
    decreases p.len(), s.len(),
{
    if p.len() == 0 {
        s.len() == 0
    } else if p[0] == '*' {
        if p.len() >= 2 && p[1] == '*' {
            glob(p.skip(2), s) || (s.len() > 0 && glob(p, s.drop_first()))
        } else {
            glob(p.drop_first(), s) || (s.len() > 0 && s[0] != '/' && glob(p, s.drop_first()))
        }
    } else if p[0] == '?' {
        s.len() > 0 && s[0] != '/' && glob(p.drop_first(), s.drop_first())
    } else {
        s.len() > 0 && s[0] == p[0] && glob(p.drop_first(), s.drop_first())
    }
}

fn glob_at(p: &Vec<char>, a: usize, s: &Vec<char>, b: usize) -> (r: bool)
    requires
        a <= p@.len(),
        b <= s@.len(),
    ensures
        r == glob(p@.skip(a as int), s@.skip(b as int)),
    decreases p@.len() - a, s@.len() - b,
{
    let ghost pv = p@.skip(a as int);
    let ghost sv = s@.skip(b as int);
    if a == p.len() {
        return b == s.len();
    }
    assert(pv.drop_first() == p@.skip(a + 1));
    if b < s.len() {
        assert(sv.drop_first() == s@.skip(b + 1));
    }
    let c: char = p[a];
    if c == '*' {
        if p.len() - a >= 2 && p[a + 1] == '*' {
            assert(pv.skip(2) == p@.skip(a + 2));
            glob_at(p, a + 2, s, b) || (b < s.len() && glob_at(p, a, s, b + 1))
        } else {
            glob_at(p, a + 1, s, b) || (b < s.len() && s[b] != '/' && glob_at(p, a, s, b + 1))
        }
    } else if c == '?' {
        b < s.len() && s[b] != '/' && glob_at(p, a + 1, s, b + 1)
    } else {
        b < s.len() && s[b] == c && glob_at(p, a + 1, s, b + 1)
    }
}

/// The part of a path behind its last slash.
pub open spec fn base_name(s: Seq<char>) -> Seq<char>
    decreases s.len(),
{
    if s.len() == 0 {
        s
    } else if s.last() == '/' {
        Seq::empty()
    } else {
        base_name(s.drop_last()).push(s.last())
    }
}

/// A path matches a pattern: as a whole where the pattern names directories, by its last part
/// where it does not.
pub open spec fn path_matches(p: Seq<char>, s: Seq<char>) -> bool {
    if p.contains('/') { glob(p, s) } else { glob(p, base_name(s)) }
}

/// Whether a path matches a pattern.
pub fn path_match(p: &str, s: &str) -> (r: bool)
    ensures
        r == path_matches(p@, s@),
{
    let pv: Vec<char> = chars(p);
    let sv: Vec<char> = chars(s);
    let mut i: usize = 0;
    while i < pv.len() && pv[i] != '/'
        invariant
            i <= pv@.len(),
            forall|k: int| 0 <= k < i ==> pv@[k] != '/',
        decreases pv@.len() - i,
    {
        i += 1;
    }
    assert(pv@.skip(0) == pv@);
    if i < pv.len() {
        assert(pv@[i as int] == '/');
        assert(sv@.skip(0) == sv@);
        glob_at(&pv, 0, &sv, 0)
    } else {
        let n: usize = sv.len();
        let mut j: usize = n;
        assert(sv@.take(n as int) == sv@);
        assert(base_name(sv@) == base_name(sv@.take(n as int)) + sv@.skip(n as int));
        while j > 0 && sv[j - 1] != '/'
            invariant
                j <= n == sv@.len(),
                base_name(sv@) == base_name(sv@.take(j as int)) + sv@.skip(j as int),
            decreases j,
        {
            let ghost t = sv@.take(j as int);
            assert(t.drop_last() == sv@.take(j - 1));
            assert(base_name(t) + sv@.skip(j as int) == base_name(sv@.take(j - 1)) + sv@.skip(j - 1));
            j -= 1;
        }
        assert(base_name(sv@) == sv@.skip(j as int)) by {
            if j > 0 {
                assert(sv@.take(j as int).last() == '/');
            }
            assert(base_name(sv@.take(j as int)).len() == 0);
        }
        glob_at(&pv, 0, &sv, j)
    }
}

/// The process that a filter looks at.
#[derive(Debug)]
pub struct Subject {
    pub box_name: String,
    pub exe: String,
    pub cwd: String,
    pub argv: Vec<String>,
}

/// A row of a list of processes or outputs, as a filter sees it.
#[derive(Debug)]
pub struct ProcFilterTarget {
    pub row_id: i64,
    pub err: bool,
    pub subject: Subject,
}

/// The numbers of a list separated by commas; what is not a number is passed over.
pub open spec fn number_of(s: Seq<char>) -> Option<int>
    decreases s.len(),
{
    if s.len() == 0 {
        None
    } else if !('0' <= s.last() <= '9') {
        None
    } else if s.len() == 1 {
        Some((s[0] as u32 - 48) as int)
    } else {
        match number_of(s.drop_last()) {
            Some(n) => Some(10 * n + (s.last() as u32 - 48)),
            None => None,
        }
    }
}

/// `id` is one of the numbers of a list, separated by commas; `cur` is the item being read.
pub open spec fn listed(s: Seq<char>, cur: Seq<char>, id: int) -> bool
    decreases s.len(),
{
    if s.len() == 0 {
        number_of(trimmed(cur)) == Some(id)
    } else if s[0] == ',' {
        number_of(trimmed(cur)) == Some(id) || listed(s.drop_first(), Seq::empty(), id)
    } else {
        listed(s.drop_first(), cur.push(s[0]), id)
    }
}

fn is_number(s: &str, id: i64) -> (r: bool)
    ensures
        r == (number_of(s@) == Some(id as int)),
{
    let v: Vec<char> = chars(s);
    let n: usize = v.len();
    if n == 0 {
        return false;
    }
    let mut acc: i64 = 0;
    let mut over: bool = false;
    let mut i: usize = 0;
    while i < n
        invariant
            i <= n == v@.len(),
            n > 0,
            v@ == s@,
            acc >= 0,
            i == 0 ==> acc == 0 && !over,
            i > 0 && !over ==> number_of(v@.take(i as int)) == Some(acc as int),
            i > 0 && over ==> (number_of(v@.take(i as int)) matches Some(m) && m > i64::MAX),
        decreases n - i,
    {
        let c: char = v[i];
        let ghost t = v@.take(i + 1);
        assert(t.drop_last() == v@.take(i as int));
        assert(t.last() == c);
        if !('0' <= c && c <= '9') {
            proof {
                lemma_not_number(v@, i as int);
                assert(v@.take(n as int) == v@);
            }
            return false;
        }
        let d: i64 = (c as u8 - 48) as i64;
        if !over {
            if acc > 922337203685477580 || (acc == 922337203685477580 && d > 7) {
                over = true;
            } else {
                acc = acc * 10 + d;
            }
        }
        i += 1;
    }
    assert(v@.take(n as int) == v@);
    !over && acc == id
}

/// A text with a character that is no digit is no number.
proof fn lemma_not_number(s: Seq<char>, i: int)
    requires
        0 <= i < s.len(),
        !('0' <= s[i] <= '9'),
    ensures
        number_of(s) is None,
    decreases s.len(),
{
    if i < s.len() - 1 {
        assert(s.drop_last()[i] == s[i]);
        lemma_not_number(s.drop_last(), i);
    }
}

fn in_list(s: &str, id: i64) -> (r: bool)
    ensures
        r == listed(s@, Seq::empty(), id as int),
{
    let v: Vec<char> = chars(s);
    let n: usize = v.len();
    let mut cur: String = String::new();
    let mut i: usize = 0;
    assert(v@.skip(0) == s@);
    while i < n
        invariant
            i <= n == v@.len(),
            listed(s@, Seq::empty(), id as int) == listed(v@.skip(i as int), cur@, id as int),
        decreases n - i,
    {
        let ghost rest = v@.skip(i as int);
        assert(rest.drop_first() == v@.skip(i + 1));
        if v[i] == ',' {
            let t: String = trim(cur.as_str());
            if is_number(t.as_str(), id) {
                return true;
            }
            cur = String::new();
        } else {
            cur.push(v[i]);
        }
        i += 1;
    }
    assert(v@.skip(n as int).len() == 0);
    let t: String = trim(cur.as_str());
    is_number(t.as_str(), id)
}

/// What a clause asks of a row, before it is negated.
pub open spec fn clause_holds(t: ProcFilterTarget, kind: Seq<char>, pattern: Seq<char>) -> bool {
    if kind == "exe"@ {
        path_matches(pattern, t.subject.exe@)
    } else if kind == "cwd"@ {
        path_matches(pattern, t.subject.cwd@)
    } else if kind == "box"@ {
        path_matches(pattern, t.subject.box_name@)
    } else if kind == "arg"@ {
        exists|i: int| 0 <= i < t.subject.argv@.len() && path_matches(pattern, #[trigger] t.subject.argv@[i]@)
    } else if kind == "ids"@ {
        listed(pattern, Seq::empty(), t.row_id as int)
    } else if kind == "err"@ {
        t.err
    } else {
        false
    }
}

fn any_match(pattern: &str, argv: &Vec<String>) -> (r: bool)
    ensures
        r == exists|i: int| 0 <= i < argv@.len() && path_matches(pattern@, #[trigger] argv@[i]@),
{
    let mut i: usize = 0;
    while i < argv.len()
        invariant
            i <= argv@.len(),
            forall|k: int| 0 <= k < i ==> !path_matches(pattern@, #[trigger] argv@[k]@),
        decreases argv@.len() - i,
    {
        if path_match(pattern, argv[i].as_str()) {
            assert(path_matches(pattern@, argv@[i as int]@));
            return true;
        }
        i += 1;
    }
    false
}

fn clause_match(t: &ProcFilterTarget, c: &Clause) -> (r: bool)
    ensures
        r == clause_holds(*t, c@.kind, c@.pattern),
{
    let kind: &str = c.m.kind.as_str();
    let pattern: &str = c.m.pattern.as_str();
    if same(kind, "exe") {
        path_match(pattern, t.subject.exe.as_str())
    } else if same(kind, "cwd") {
        path_match(pattern, t.subject.cwd.as_str())
    } else if same(kind, "box") {
        path_match(pattern, t.subject.box_name.as_str())
    } else if same(kind, "arg") {
        any_match(pattern, &t.subject.argv)
    } else if same(kind, "ids") {
        in_list(pattern, t.row_id)
    } else if same(kind, "err") {
        t.err
    } else {
        false
    }
}

/// The clauses of a list, from the first on: those that are switched off do not count, the first
/// that counts stands alone, each later one is joined to what came before it. A list in which no
/// clause counts holds of everything.
pub open spec fn holds(t: ProcFilterTarget, cs: Seq<ClauseV>) -> Option<bool>
    decreases cs.len(),
{
    if cs.len() == 0 {
        None
    } else {
        let before = holds(t, cs.drop_last());
        let c = cs.last();
        let here = clause_holds(t, c.kind, c.pattern) != c.negate;
        if !c.enabled {
            before
        } else {
            match before {
                None => Some(here),
                Some(b) => Some(
                    match c.join {
                        Join::And => b && here,
                        Join::Or => b || here,
                    },
                ),
            }
        }
    }
}

/// Whether a row passes a list of clauses.
pub fn eval_clauses(t: &ProcFilterTarget, cs: &[Clause]) -> (r: bool)
    ensures
        r == (holds(*t, clauses(cs@)) != Some(false)),
{
    let mut acc: Option<bool> = None;
    let mut i: usize = 0;
    while i < cs.len()
        invariant
            i <= cs@.len(),
            acc == holds(*t, clauses(cs@).take(i as int)),
        decreases cs@.len() - i,
    {
        let ghost pre = clauses(cs@).take(i + 1);
        assert(pre.drop_last() == clauses(cs@).take(i as int));
        assert(pre.last() == cs@[i as int]@);
        if cs[i].enabled {
            let here: bool = clause_match(t, &cs[i]) != cs[i].negate;
            acc = match acc {
                None => Some(here),
                Some(b) => Some(
                    match cs[i].join {
                        Join::And => b && here,
                        Join::Or => b || here,
                    },
                ),
            };
        }
        i += 1;
    }
    assert(clauses(cs@).take(cs@.len() as int) == clauses(cs@));
    match acc {
        Some(b) => b,
        None => true,
    }
}

} // verus!
