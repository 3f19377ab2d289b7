//! Filters: what is sent of them, and which rows they let through.

use vstd::prelude::*;

#[allow(unused_imports)]
use crate::app::{App, Op, StepV, Then};
#[allow(unused_imports)]
use crate::filters::{any_enabled, kept};
#[allow(unused_imports)]
use crate::json::{lookup, JV};
#[allow(unused_imports)]
use crate::laws::only_plans;
#[allow(unused_imports)]
use crate::nav::id_pattern;
#[allow(unused_imports)]
use crate::rules::{
    base_name, clause_holds, glob, holds, is_bare, listed, number_of, path_matches, wrapped, ClauseV, Join, ProcFilterTarget,
};
#[allow(unused_imports)]
use crate::text::{dec, digit, has_prefix, holds_text, is_ws, joined, sdec, stands_at, trimmed};
#[allow(unused_imports)]
use crate::types::{clause_json, clauses_json, committed, filter_json, FilterView};

verus! {

/// A value says what a clause says, member by member.
pub open spec fn tells(j: JV, c: ClauseV) -> bool {
    &&& j.get("kind"@) == Some(JV::Str(c.kind))
    &&& j.get("pattern"@) == Some(JV::Str(c.pattern))
    &&& j.get("join"@) == Some(JV::Str(if c.join == Join::Or { "or"@ } else { "and"@ }))
    &&& j.get("negate"@) == Some(JV::Bool(c.negate))
    &&& j.get("enabled"@) == Some(JV::Bool(c.enabled))
}

proof fn lemma_member_names()
    ensures
        "kind"@ != "pattern"@,
        "kind"@ != "join"@,
        "kind"@ != "negate"@,
        "kind"@ != "enabled"@,
        "pattern"@ != "join"@,
        "pattern"@ != "negate"@,
        "pattern"@ != "enabled"@,
        "join"@ != "negate"@,
        "join"@ != "enabled"@,
        "negate"@ != "enabled"@,
        "and"@ != "or"@,
{
    reveal_strlit("kind");
    reveal_strlit("pattern");
    reveal_strlit("join");
    reveal_strlit("negate");
    reveal_strlit("enabled");
    reveal_strlit("and");
    reveal_strlit("or");
    assert("kind"@.len() == 4 && "kind"@[0] == 'k');
    assert("pattern"@.len() == 7 && "pattern"@[0] == 'p');
    assert("join"@.len() == 4 && "join"@[0] == 'j');
    assert("negate"@.len() == 6);
    assert("enabled"@.len() == 7 && "enabled"@[0] == 'e');
    assert("and"@.len() == 3);
    assert("or"@.len() == 2);
}

proof fn lemma_told(c: ClauseV)
    ensures
        tells(clause_json(c), c),
{
    lemma_member_names();
    let e = clause_json(c)->Obj_0;
    reveal_with_fuel(lookup, 6);
    assert(e.drop_first()[0] == e[1]);
    assert(e.drop_first().drop_first()[0] == e[2]);
    assert(e.drop_first().drop_first().drop_first()[0] == e[3]);
    assert(e.drop_first().drop_first().drop_first().drop_first()[0] == e[4]);
}

/// A filter is sent as a list with one value for each clause, in their order, and each value says
/// the kind, the pattern, how the clause is joined, whether it is negated and whether it counts.
pub proof fn law_a_filter_is_sent_clause_by_clause(cs: Seq<ClauseV>)
    ensures
        filter_json(Some(cs)) matches JV::Arr(items) && {
            &&& items.len() == cs.len()
            &&& forall|i: int| 0 <= i < cs.len() ==> tells(#[trigger] items[i], cs[i])
        },
        filter_json(None) == JV::Null,
{
    assert forall|i: int| 0 <= i < cs.len() implies tells(#[trigger] clauses_json(cs)[i], cs[i]) by {
        lemma_told(cs[i]);
    }
}

/// Two filters that differ in any clause are sent as different values.
pub proof fn law_different_filters_are_sent_differently(x: Seq<ClauseV>, y: Seq<ClauseV>)
    requires
        filter_json(Some(x)) == filter_json(Some(y)),
    ensures
        x == y,
{
    lemma_member_names();
    law_a_filter_is_sent_clause_by_clause(x);
    law_a_filter_is_sent_clause_by_clause(y);
    let items = filter_json(Some(x))->Arr_0;
    assert forall|i: int| 0 <= i < x.len() implies x[i] == y[i] by {
        assert(tells(items[i], x[i]) && tells(items[i], y[i]));
    }
    assert(x =~= y);
}

/// Every row of the filter dialog has a pattern.
pub open spec fn all_written(rows: Seq<ClauseV>) -> bool {
    forall|i: int| 0 <= i < rows.len() ==> trimmed((#[trigger] rows[i]).pattern).len() > 0
}

proof fn lemma_all_kept(rows: Seq<ClauseV>)
    requires
        all_written(rows),
    ensures
        kept(rows) == rows.map_values(|c: ClauseV| committed(c)),
    decreases rows.len(),
{
    if rows.len() > 0 {
        let front = rows.drop_last();
        assert forall|i: int| 0 <= i < front.len() implies trimmed((#[trigger] front[i]).pattern).len() > 0 by {
            assert(front[i] == rows[i]);
        }
        lemma_all_kept(front);
        assert(trimmed(rows[rows.len() - 1].pattern).len() > 0);
    }
    assert(kept(rows) =~= rows.map_values(|c: ClauseV| committed(c)));
}

/// A filter that is committed goes to the engine at once, for the list that it was typed for: each
/// row with its kind, its join, its negation and whether it counts, as they were set.
pub proof fn law_a_committed_filter_is_sent(a: App, b: App, v: FilterView, rows: Seq<ClauseV>, id: u64)
    requires
        a.win(v).view == Some(id),
        !a.shown.err_only,
        all_written(rows),
        exists|i: int| 0 <= i < rows.len() && (#[trigger] rows[i]).enabled,
        a.commit_filter_v(v, rows, b),
    ensures
        b.plan().len() > a.plan().len(),
        b.plan()[0] matches StepV::Call(verb, args, then) && {
            &&& verb == "view.filter"@
            &&& then == Then::Filtered(v)
            &&& args.len() == 2
            &&& args[0] == JV::Int(id as int)
            &&& args[1] matches JV::Arr(items) && {
                &&& items.len() == rows.len()
                &&& forall|i: int|
                    0 <= i < items.len() ==> {
                        &&& (#[trigger] items[i]).get("kind"@) == Some(JV::Str(rows[i].kind))
                        &&& items[i].get("join"@) == Some(
                            JV::Str(if rows[i].join == Join::Or { "or"@ } else { "and"@ }),
                        )
                        &&& items[i].get("negate"@) == Some(JV::Bool(rows[i].negate))
                        &&& items[i].get("enabled"@) == Some(JV::Bool(rows[i].enabled))
                        &&& items[i].get("pattern"@) == Some(
                            JV::Str(
                                if rows[i].kind == "cmd"@ || rows[i].kind == "ids"@ {
                                    trimmed(rows[i].pattern)
                                } else {
                                    wrapped(trimmed(rows[i].pattern))
                                },
                            ),
                        )
                    }
            }
        },
        b.filter(v).on,
        !b.filter(v).generated,
        forall|u: FilterView| u != v ==> b.filter(u) == a.filter(u),
{
    lemma_all_kept(rows);
    let cs = kept(rows);
    let k = choose|i: int| 0 <= i < rows.len() && (#[trigger] rows[i]).enabled;
    assert(cs[k].enabled);
    assert(any_enabled(cs));
    law_a_filter_is_sent_clause_by_clause(cs);
    assert(b.win(v).view == Some(id));
    assert(b.filter(v)@.clauses == cs);
    assert(b.pushing(v).len() == 1);
    let items = b.plan()[0]->Call_1[1]->Arr_0;
    assert forall|i: int| 0 <= i < items.len() implies tells(#[trigger] items[i], committed(rows[i])) by {
        assert(cs[i] == committed(rows[i]));
    }
}

/// Where no row counts, the filter stays as it was and nothing is sent.
pub proof fn law_an_empty_filter_is_not_sent(a: App, b: App, v: FilterView, rows: Seq<ClauseV>)
    requires
        forall|i: int| 0 <= i < kept(rows).len() ==> !(#[trigger] kept(rows)[i]).enabled,
        a.commit_filter_v(v, rows, b),
    ensures
        b.plan() == a.plan(),
        b.filters == a.filters,
{
}

/// Clearing the filter of a list tells the engine that it has none.
pub proof fn law_a_cleared_filter_is_dropped(a: App, b: App, v: FilterView, id: u64)
    requires
        a.win(v).view == Some(id),
        !a.shown.err_only,
        a.clear_filter_v(v, b),
    ensures
        !b.filter(v).on,
        b.plan().len() > a.plan().len(),
        b.plan()[0] == StepV::Call("view.filter"@, seq![JV::Int(id as int), JV::Null], Then::Filtered(v)),
        forall|u: FilterView| u != v ==> b.filter(u) == a.filter(u),
{
    assert(b.pushing(v).len() == 1);
}

/// To show only errors, a list that knows of them is sent its own clauses and one more: that the
/// row is an error.
pub proof fn law_errors_only_adds_a_clause(a: App, v: FilterView)
    requires
        a.shown.err_only,
        v == FilterView::Outputs || v == FilterView::Pipelines || v == FilterView::BuildEdges,
    ensures
        a.sent_filter(v) matches JV::Arr(items) && {
            let cs = a.filter(v)@.clauses;
            let n = if a.filter(v).on { cs.len() as int } else { 0 };
            &&& items.len() == n + 1
            &&& forall|i: int| 0 <= i < n ==> tells(#[trigger] items[i], cs[i])
            &&& tells(
                items[n],
                ClauseV { kind: "err"@, pattern: "1"@, join: Join::And, negate: false, enabled: true },
            )
        },
{
    let cs = a.filter(v)@.clauses;
    law_a_filter_is_sent_clause_by_clause(cs);
    lemma_told(ClauseV { kind: "err"@, pattern: "1"@, join: Join::And, negate: false, enabled: true });
}

/// A list that knows of no errors is sent its own clauses alone.
pub proof fn law_other_lists_know_no_errors(a: App, b: App, v: FilterView)
    requires
        v == FilterView::Changes || v == FilterView::Procs,
        a.filters == b.filters,
    ensures
        a.sent_filter(v) == b.sent_filter(v),
        a.filter(v).on && a.filter(v)@.clauses.len() > 0 ==> a.sent_filter(v) == filter_json(
            Some(a.filter(v)@.clauses),
        ),
        !a.filter(v).on ==> a.sent_filter(v) == JV::Null,
{
}

/// A negated clause lets through what the clause keeps out.
pub proof fn law_negation_is_the_opposite(t: ProcFilterTarget, c: ClauseV)
    requires
        c.enabled,
    ensures
        holds(t, seq![c]) is Some,
        holds(t, seq![ClauseV { negate: !c.negate, ..c }]) == Some(!(holds(t, seq![c])->0)),
        !c.negate ==> holds(t, seq![c]) == Some(clause_holds(t, c.kind, c.pattern)),
{
    let d = ClauseV { negate: !c.negate, ..c };
    assert(seq![c].drop_last() =~= Seq::<ClauseV>::empty());
    assert(seq![d].drop_last() =~= Seq::<ClauseV>::empty());
    reveal_with_fuel(holds, 2);
}

/// A clause joined by `and` narrows what was let through, one joined by `or` widens it, and one that
/// does not count changes nothing.
pub proof fn law_clauses_join_from_the_left(t: ProcFilterTarget, cs: Seq<ClauseV>, c: ClauseV)
    requires
        holds(t, cs) is Some,
    ensures
        c.enabled && c.join == Join::And ==> holds(t, cs.push(c)) == Some(
            holds(t, cs) == Some(true) && holds(t, seq![c]) == Some(true),
        ),
        c.enabled && c.join == Join::Or ==> holds(t, cs.push(c)) == Some(
            holds(t, cs) == Some(true) || holds(t, seq![c]) == Some(true),
        ),
        !c.enabled ==> holds(t, cs.push(c)) == holds(t, cs),
{
    assert(cs.push(c).drop_last() =~= cs);
    assert(seq![c].drop_last() =~= Seq::<ClauseV>::empty());
    reveal_with_fuel(holds, 2);
}

/// A filter without a clause that counts keeps nothing out.
pub proof fn law_no_clause_keeps_nothing_out(t: ProcFilterTarget, cs: Seq<ClauseV>)
    requires
        forall|i: int| 0 <= i < cs.len() ==> !(#[trigger] cs[i]).enabled,
    ensures
        holds(t, cs) is None,
    decreases cs.len(),
{
    if cs.len() > 0 {
        let front = cs.drop_last();
        assert forall|i: int| 0 <= i < front.len() implies !(#[trigger] front[i]).enabled by {
            assert(front[i] == cs[i]);
        }
        law_no_clause_keeps_nothing_out(t, front);
        assert(!cs[cs.len() - 1].enabled);
    }
}

/// Each kind of clause looks at what it is named for.
pub proof fn law_kinds_look_at_what_they_name(t: ProcFilterTarget, p: Seq<char>)
    ensures
        clause_holds(t, "exe"@, p) == path_matches(p, t.subject.exe@),
        clause_holds(t, "cwd"@, p) == path_matches(p, t.subject.cwd@),
        clause_holds(t, "box"@, p) == path_matches(p, t.subject.box_name@),
        clause_holds(t, "arg"@, p) == exists|i: int|
            0 <= i < t.subject.argv@.len() && path_matches(p, #[trigger] t.subject.argv@[i]@),
        clause_holds(t, "ids"@, p) == listed(p, Seq::empty(), t.row_id as int),
        clause_holds(t, "err"@, p) == t.err,
{
    reveal_strlit("exe");
    reveal_strlit("cwd");
    reveal_strlit("box");
    reveal_strlit("arg");
    reveal_strlit("ids");
    reveal_strlit("err");
    assert("exe"@[0] == 'e' && "exe"@[1] == 'x');
    assert("cwd"@[0] == 'c');
    assert("box"@[0] == 'b');
    assert("arg"@[0] == 'a');
    assert("ids"@[0] == 'i');
    assert("err"@[0] == 'e' && "err"@[1] == 'r');
}

proof fn lemma_digit(d: int)
    requires
        0 <= d < 10,
    ensures
        '0' <= digit(d) <= '9',
        digit(d) as u32 - 48 == d,
        !is_ws(digit(d)),
        digit(d) != ',',
{
}

proof fn lemma_dec(n: int)
    requires
        n >= 0,
    ensures
        dec(n).len() > 0,
        number_of(dec(n)) == Some(n),
        forall|i: int| 0 <= i < dec(n).len() ==> !is_ws(#[trigger] dec(n)[i]) && dec(n)[i] != ',',
    decreases n,
{
    lemma_digit(n % 10);
    if n < 10 {
        assert(dec(n) =~= seq![digit(n)]);
    } else {
        lemma_dec(n / 10);
        assert(dec(n).drop_last() =~= dec(n / 10));
        assert(dec(n).last() == digit(n % 10));
    }
}

proof fn lemma_no_comma(s: Seq<char>, cur: Seq<char>, id: int)
    requires
        forall|i: int| 0 <= i < s.len() ==> #[trigger] s[i] != ',',
    ensures
        listed(s, cur, id) == (number_of(trimmed(cur + s)) == Some(id)),
    decreases s.len(),
{
    if s.len() == 0 {
        assert(cur + s =~= cur);
    } else {
        let rest = s.drop_first();
        assert forall|i: int| 0 <= i < rest.len() implies #[trigger] rest[i] != ',' by {
            assert(rest[i] == s[i + 1]);
        }
        lemma_no_comma(rest, cur.push(s[0]), id);
        assert(cur.push(s[0]) + rest =~= cur + s);
    }
}

proof fn lemma_listed_parts(a: Seq<char>, b: Seq<char>, cur: Seq<char>, id: int)
    ensures
        listed(a + seq![','] + b, cur, id) == (listed(a, cur, id) || listed(b, Seq::empty(), id)),
    decreases a.len(),
{
    let s = a + seq![','] + b;
    if a.len() == 0 {
        assert(s[0] == ',');
        assert(s.drop_first() =~= b);
    } else {
        assert(s[0] == a[0]);
        assert(s.drop_first() =~= a.drop_first() + seq![','] + b);
        if a[0] == ',' {
            lemma_listed_parts(a.drop_first(), b, Seq::empty(), id);
        } else {
            lemma_listed_parts(a.drop_first(), b, cur.push(a[0]), id);
        }
    }
}

/// A list that is narrowed to some numbers lets through the rows of these numbers, and no other.
pub proof fn law_a_narrowed_list_shows_its_numbers(v: Seq<int>, id: int)
    requires
        v.len() > 0,
        forall|i: int| 0 <= i < v.len() ==> #[trigger] v[i] >= 0,
    ensures
        listed(id_pattern(v), Seq::empty(), id) == v.contains(id),
    decreases v.len(),
{
    reveal_strlit(",");
    assert(","@ =~= seq![',']);
    let texts = v.map_values(|n: int| sdec(n));
    let n = v.last();
    lemma_dec(n);
    lemma_no_comma(dec(n), Seq::empty(), id);
    assert(Seq::<char>::empty() + dec(n) =~= dec(n));
    assert(trimmed(dec(n)) == dec(n));
    assert(texts.last() == dec(n));
    if v.len() == 1 {
        assert(id_pattern(v) == dec(n));
        assert(v[0] == n);
        if v.contains(id) {
            assert(id == n);
        }
    } else {
        let front = v.drop_last();
        assert forall|i: int| 0 <= i < front.len() implies #[trigger] front[i] >= 0 by {
            assert(front[i] == v[i]);
        }
        law_a_narrowed_list_shows_its_numbers(front, id);
        assert(texts.drop_last() =~= front.map_values(|n: int| sdec(n)));
        assert(id_pattern(v) =~= id_pattern(front) + seq![','] + dec(n));
        lemma_listed_parts(id_pattern(front), dec(n), Seq::empty(), id);
        if front.contains(id) {
            let k = choose|k: int| 0 <= k < front.len() && front[k] == id;
            assert(v[k] == id);
        }
        if v.contains(id) && id != n {
            let k = choose|k: int| 0 <= k < v.len() && v[k] == id;
            assert(front[k] == id);
        }
        assert(v[v.len() - 1] == n);
    }
}

/// A pattern without wildcards matches itself and nothing else.
pub proof fn law_a_plain_pattern_matches_itself(p: Seq<char>, s: Seq<char>)
    requires
        forall|i: int| 0 <= i < p.len() ==> #[trigger] p[i] != '*' && p[i] != '?',
    ensures
        glob(p, s) == (p == s),
    decreases p.len(),
{
    if p.len() == 0 {
        assert(p == s <==> s.len() == 0) by {
            if s.len() == 0 {
                assert(p =~= s);
            }
        }
    } else {
        assert(p[0] != '*' && p[0] != '?');
        let q = p.drop_first();
        assert forall|i: int| 0 <= i < q.len() implies #[trigger] q[i] != '*' && q[i] != '?' by {
            assert(q[i] == p[i + 1]);
        }
        if s.len() > 0 {
            law_a_plain_pattern_matches_itself(q, s.drop_first());
            if p == s {
                assert(q =~= s.drop_first());
            }
            if p[0] == s[0] && q == s.drop_first() {
                assert(p =~= seq![p[0]] + q);
                assert(s =~= seq![s[0]] + s.drop_first());
            }
        }
    }
}

proof fn lemma_star(q: Seq<char>, s: Seq<char>)
    requires
        q.len() == 0 || q[0] != '*',
        forall|i: int| 0 <= i < s.len() ==> #[trigger] s[i] != '/',
    ensures
        glob(seq!['*'] + q, s) == exists|k: int| 0 <= k <= s.len() && #[trigger] glob(q, s.skip(k)),
    decreases s.len(),
{
    let p = seq!['*'] + q;
    assert(p.drop_first() =~= q);
    assert(s.skip(0) =~= s);
    assert(p[0] == '*');
    if p.len() >= 2 {
        assert(p[1] == q[0]);
    }
    if s.len() > 0 {
        let t = s.drop_first();
        assert forall|i: int| 0 <= i < t.len() implies #[trigger] t[i] != '/' by {
            assert(t[i] == s[i + 1]);
        }
        lemma_star(q, t);
        assert(s[0] != '/');
        if glob(p, t) {
            let k = choose|k: int| 0 <= k <= t.len() && #[trigger] glob(q, t.skip(k));
            assert(t.skip(k) =~= s.skip(k + 1));
            assert(glob(q, s.skip(k + 1)));
        }
        if exists|k: int| 0 <= k <= s.len() && #[trigger] glob(q, s.skip(k)) {
            let k = choose|k: int| 0 <= k <= s.len() && #[trigger] glob(q, s.skip(k));
            if k > 0 {
                assert(t.skip(k - 1) =~= s.skip(k));
                assert(glob(q, t.skip(k - 1)));
            } else {
                assert(s.skip(k) =~= s);
            }
        }
        if glob(q, s) {
            assert(glob(q, s.skip(0)));
        }
    } else {
        if glob(q, s) {
            assert(glob(q, s.skip(0)));
        }
    }
}

proof fn lemma_prefix(p: Seq<char>, s: Seq<char>)
    requires
        forall|i: int| 0 <= i < p.len() ==> #[trigger] p[i] != '*' && p[i] != '?',
        forall|i: int| 0 <= i < s.len() ==> #[trigger] s[i] != '/',
    ensures
        glob(p + seq!['*'], s) == has_prefix(s, p),
    decreases p.len(),
{
    let w = p + seq!['*'];
    if p.len() == 0 {
        let none = Seq::<char>::empty();
        assert(w =~= seq!['*'] + none);
        lemma_star(none, s);
        assert(s.skip(s.len() as int) =~= none);
        assert(glob(none, s.skip(s.len() as int)));
        assert(s.take(0) =~= p);
    } else {
        assert(p[0] != '*' && p[0] != '?');
        assert(w[0] == p[0]);
        let q = p.drop_first();
        assert(w.drop_first() =~= q + seq!['*']);
        assert forall|i: int| 0 <= i < q.len() implies #[trigger] q[i] != '*' && q[i] != '?' by {
            assert(q[i] == p[i + 1]);
        }
        if s.len() > 0 {
            let t = s.drop_first();
            assert forall|i: int| 0 <= i < t.len() implies #[trigger] t[i] != '/' by {
                assert(t[i] == s[i + 1]);
            }
            lemma_prefix(q, t);
            if has_prefix(s, p) {
                assert(s.take(p.len() as int)[0] == p[0]);
                assert(t.take(q.len() as int) =~= q) by {
                    assert forall|i: int| 0 <= i < q.len() implies t[i] == q[i] by {
                        assert(s.take(p.len() as int)[i + 1] == p[i + 1]);
                    }
                }
            }
            if s[0] == p[0] && has_prefix(t, q) {
                assert(s.take(p.len() as int) =~= p) by {
                    assert forall|i: int| 0 <= i < p.len() implies s[i] == p[i] by {
                        if i > 0 {
                            assert(t.take(q.len() as int)[i - 1] == q[i - 1]);
                        }
                    }
                }
            }
        }
    }
}

/// A name that is typed without wildcards and without a slash is looked for anywhere in the name of
/// the file.
pub proof fn law_a_bare_pattern_is_looked_for_anywhere(p: Seq<char>, name: Seq<char>)
    requires
        p.len() > 0,
        forall|i: int| 0 <= i < p.len() ==> #[trigger] p[i] != '*' && p[i] != '?' && p[i] != '/',
        forall|i: int| 0 <= i < name.len() ==> #[trigger] name[i] != '/',
    ensures
        glob(wrapped(p), name) == holds_text(name, p),
{
    reveal_strlit("*");
    assert("*"@ =~= seq!['*']);
    assert(is_bare(p));
    let q = p + seq!['*'];
    assert(wrapped(p) =~= seq!['*'] + q);
    assert(q[0] == p[0]);
    lemma_star(q, name);
    if holds_text(name, p) {
        let k = choose|k: int| stands_at(name, p, k);
        let t = name.skip(k);
        assert(t.take(p.len() as int) =~= name.subrange(k, k + p.len()));
        assert forall|i: int| 0 <= i < t.len() implies #[trigger] t[i] != '/' by {
            assert(t[i] == name[k + i]);
        }
        lemma_prefix(p, t);
        assert(glob(q, name.skip(k)));
    }
    if exists|k: int| 0 <= k <= name.len() && #[trigger] glob(q, name.skip(k)) {
        let k = choose|k: int| 0 <= k <= name.len() && #[trigger] glob(q, name.skip(k));
        let t = name.skip(k);
        assert forall|i: int| 0 <= i < t.len() implies #[trigger] t[i] != '/' by {
            assert(t[i] == name[k + i]);
        }
        lemma_prefix(p, t);
        assert(t.take(p.len() as int) =~= name.subrange(k, k + p.len()));
        assert(stands_at(name, p, k));
    }
}

/// A pattern without a slash is held against the last part of a path, one with a slash against all
/// of it.
pub proof fn law_a_pattern_without_a_slash_is_for_the_name(p: Seq<char>, dir: Seq<char>, name: Seq<char>)
    requires
        forall|i: int| 0 <= i < name.len() ==> #[trigger] name[i] != '/',
    ensures
        !p.contains('/') ==> path_matches(p, dir + seq!['/'] + name) == glob(p, name),
        !p.contains('/') ==> path_matches(p, name) == glob(p, name),
        p.contains('/') ==> path_matches(p, dir + seq!['/'] + name) == glob(p, dir + seq!['/'] + name),
{
    lemma_last_part(dir + seq!['/'], name);
    lemma_last_part(Seq::empty(), name);
    assert(Seq::<char>::empty() + name =~= name);
}

proof fn lemma_last_part(dir: Seq<char>, name: Seq<char>)
    requires
        forall|i: int| 0 <= i < name.len() ==> #[trigger] name[i] != '/',
        dir.len() == 0 || dir.last() == '/',
    ensures
        base_name(dir + name) == name,
    decreases name.len(),
{
    let s = dir + name;
    if name.len() == 0 {
        assert(s =~= dir);
        assert(base_name(s) =~= name);
    } else {
        let front = name.drop_last();
        assert forall|i: int| 0 <= i < front.len() implies #[trigger] front[i] != '/' by {
            assert(front[i] == name[i]);
        }
        lemma_last_part(dir, front);
        assert(s.drop_last() =~= dir + front);
        assert(s.last() == name[name.len() - 1]);
        assert(base_name(s) =~= name);
    }
}

} // verus!
