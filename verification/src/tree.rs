//! Trees shown as lists: rows in depth-first order with a depth each.

use vstd::prelude::*;

use crate::json::Json;
#[allow(unused_imports)]
use crate::json::{jvs, JV};
use crate::text::same;

verus! {

/// The nearest row before `i` that is shallower than `i`, among the rows before `k`; -1 for none.
pub open spec fn shallower_before(d: Seq<usize>, i: int, k: int) -> int
    decreases k,
{
    if k <= 0 {
        -1
    } else if d[k - 1] < d[i] {
        k - 1
    } else {
        shallower_before(d, i, k - 1)
    }
}

/// The parent of row `i`: the nearest shallower row before it, where that is exactly one level
/// up; -1 for a row that has none.
pub open spec fn parent_of(d: Seq<usize>, i: int) -> int {
    let p = shallower_before(d, i, i);
    if p >= 0 && d[p] + 1 == d[i] { p } else { -1 }
}

/// How many of the first `n` rows have `p` as their parent.
pub open spec fn children_before(d: Seq<usize>, p: int, n: int) -> int
    decreases n,
{
    if n <= 0 {
        0
    } else {
        children_before(d, p, n - 1) + if parent_of(d, n - 1) == p { 1int } else { 0 }
    }
}

/// How many rows have `p` as their parent.
pub open spec fn child_count(d: Seq<usize>, p: int) -> int {
    children_before(d, p, d.len() as int)
}

/// The level at which row `i` is shown: that of its parent if it is an only child, one deeper
/// if it has siblings, the outermost for a row without a parent.
pub open spec fn shown_depth(d: Seq<usize>, i: int) -> int
    decreases i,
{
    let p = parent_of(d, i);
    if 0 <= p < i {
        shown_depth(d, p) + if child_count(d, p) > 1 { 1int } else { 0 }
    } else {
        0
    }
}

/// A row of a chain: an only child, or a row with exactly one child.
pub open spec fn in_chain(d: Seq<usize>, i: int) -> bool {
    (parent_of(d, i) >= 0 && child_count(d, parent_of(d, i)) == 1) || child_count(d, i) == 1
}

proof fn lemma_shallower(d: Seq<usize>, i: int, k: int, p: int)
    requires
        0 <= i < d.len(),
        0 <= k <= i,
        -1 <= p < k,
        p >= 0 ==> d[p] < d[i],
        forall|x: int| p < x < k ==> d[x] >= d[i],
    ensures
        shallower_before(d, i, k) == p,
    decreases k,
{
    if k > 0 && p < k - 1 {
        assert(d[k - 1] >= d[i]);
        lemma_shallower(d, i, k - 1, p);
    }
}

proof fn lemma_shallower_range(d: Seq<usize>, i: int, k: int)
    requires
        0 <= k <= i,
    ensures
        -1 <= shallower_before(d, i, k) < k || (k == 0 && shallower_before(d, i, k) == -1),
    decreases k,
{
    if k > 0 {
        lemma_shallower_range(d, i, k - 1);
    }
}

proof fn lemma_children_bounds(d: Seq<usize>, p: int, n: int)
    requires
        0 <= n,
    ensures
        0 <= children_before(d, p, n) <= n,
    decreases n,
{
    if n > 0 {
        lemma_children_bounds(d, p, n - 1);
    }
}

proof fn lemma_shown_depth_bounds(d: Seq<usize>, i: int)
    requires
        0 <= i < d.len(),
    ensures
        0 <= shown_depth(d, i) <= i,
    decreases i,
{
    let p = parent_of(d, i);
    if 0 <= p < i {
        lemma_shown_depth_bounds(d, p);
    }
}

/// Flattens the single-child chains of a tree given by the depths of its rows in depth-first
/// order: for each row the level at which it is shown, and whether it belongs to a chain.
pub fn collapse_chains(depths: &[usize]) -> (r: Vec<(usize, bool)>)
    ensures
        r@.len() == depths@.len(),
        forall|i: int|
            0 <= i < r@.len() ==> (#[trigger] r@[i]).0 as int == shown_depth(depths@, i) && r@[i].1 == in_chain(
                depths@,
                i,
            ),
{
    let n: usize = depths.len();
    let ghost d = depths@;
    let mut parent: Vec<Option<usize>> = Vec::new();
    let mut counts: Vec<usize> = Vec::new();
    let mut stack: Vec<usize> = Vec::new();
    let mut z: usize = 0;
    while z < n
        invariant
            z <= n,
            counts@.len() == z,
            forall|p: int| 0 <= p < z ==> counts@[p] == 0,
        decreases n - z,
    {
        counts.push(0);
        z += 1;
    }
    let mut i: usize = 0;
    while i < n
        invariant
            i <= n == d.len(),
            d == depths@,
            parent@.len() == i,
            counts@.len() == n,
            forall|x: int|
                0 <= x < i ==> (match #[trigger] parent@[x] {
                    Some(p) => parent_of(d, x) == p as int && p < x,
                    None => parent_of(d, x) == -1,
                }),
            forall|p: int| 0 <= p < n ==> #[trigger] counts@[p] as int == children_before(d, p, i as int),
            // the stack holds the chain of shallower rows that ends in the row before `i`
            i > 0 ==> stack@.len() > 0 && stack@.last() == i - 1,
            i == 0 ==> stack@.len() == 0,
            forall|m: int| 0 <= m < stack@.len() ==> (#[trigger] stack@[m]) < i,
            forall|m: int, x: int|
                #![trigger stack@[m], d[x]]
                0 <= m < stack@.len() && (if m > 0 {
                    stack@[m - 1] as int
                } else {
                    -1
                }) < x < stack@[m] ==> d[x] >= d[stack@[m] as int],
            forall|m: int| 0 < m < stack@.len() ==> stack@[m - 1] < #[trigger] stack@[m],
        decreases n - i,
    {
        let ghost before = stack@;
        while stack.len() > 0 && depths[stack[stack.len() - 1]] >= depths[i]
            invariant
                i < n == d.len(),
                d == depths@,
                forall|m: int| 0 <= m < stack@.len() ==> (#[trigger] stack@[m]) < i,
                forall|x: int|
                    (if stack@.len() > 0 {
                        stack@.last() as int
                    } else {
                        -1
                    }) < x < i ==> #[trigger] d[x] >= d[i as int],
                forall|m: int, x: int|
                    #![trigger stack@[m], d[x]]
                    0 <= m < stack@.len() && (if m > 0 {
                        stack@[m - 1] as int
                    } else {
                        -1
                    }) < x < stack@[m] ==> d[x] >= d[stack@[m] as int],
                forall|m: int| 0 < m < stack@.len() ==> stack@[m - 1] < #[trigger] stack@[m],
            decreases stack@.len(),
        {
            let ghost st = stack@;
            let _ = stack.pop();
            proof {
                let t = st.last() as int;
                let m0 = st.len() - 1;
                assert forall|x: int|
                    (if stack@.len() > 0 {
                        stack@.last() as int
                    } else {
                        -1
                    }) < x < i implies #[trigger] d[x] >= d[i as int] by {
                    if x < t {
                        assert(st[m0] == t);
                        assert(d[x] >= d[st[m0] as int]);
                    } else if x == t {
                    } else {
                    }
                }
            }
        }
        let mut mine: Option<usize> = None;
        let ghost near: int = if stack@.len() > 0 { stack@.last() as int } else { -1 };
        proof {
            lemma_shallower(d, i as int, i as int, near);
        }
        let k: usize = stack.len();
        if k > 0 {
            let p: usize = stack[k - 1];
            if depths[p] + 1 == depths[i] {
                mine = Some(p);
                let c: usize = counts[p];
                proof {
                    lemma_children_bounds(d, p as int, i as int);
                }
                counts.set(p, c + 1);
            }
        }
        parent.push(mine);
        let ghost popped = stack@;
        stack.push(i);
        proof {
            assert forall|m: int, x: int|
                #![trigger stack@[m], d[x]]
                0 <= m < stack@.len() && (if m > 0 {
                    stack@[m - 1] as int
                } else {
                    -1
                }) < x < stack@[m] implies d[x] >= d[stack@[m] as int] by {
                if m < popped.len() {
                    assert(stack@[m] == popped[m]);
                    if m > 0 {
                        assert(stack@[m - 1] == popped[m - 1]);
                    }
                } else {
                    if m > 0 {
                        assert(stack@[m - 1] == popped.last());
                    }
                }
            }
        }
        i += 1;
    }
    let mut shown: Vec<usize> = Vec::new();
    let mut out: Vec<(usize, bool)> = Vec::new();
    let mut j: usize = 0;
    while j < n
        invariant
            j <= n == d.len(),
            d == depths@,
            parent@.len() == n,
            counts@.len() == n,
            shown@.len() == j,
            out@.len() == j,
            forall|x: int|
                0 <= x < n ==> (match #[trigger] parent@[x] {
                    Some(p) => parent_of(d, x) == p as int && p < x,
                    None => parent_of(d, x) == -1,
                }),
            forall|p: int| 0 <= p < n ==> #[trigger] counts@[p] as int == child_count(d, p),
            forall|x: int| 0 <= x < j ==> (#[trigger] shown@[x]) as int == shown_depth(d, x),
            forall|x: int|
                0 <= x < j ==> (#[trigger] out@[x]).0 as int == shown_depth(d, x) && out@[x].1 == in_chain(d, x),
        decreases n - j,
    {
        assert(counts@[j as int] as int == child_count(d, j as int));
        let mut level: usize = 0;
        let mut chain: bool = counts[j] == 1;
        match parent[j] {
            Some(p) => {
                assert(shown@[p as int] as int == shown_depth(d, p as int));
                assert(counts@[p as int] as int == child_count(d, p as int));
                proof {
                    lemma_shown_depth_bounds(d, p as int);
                }
                level = if counts[p] > 1 { shown[p] + 1 } else { shown[p] };
                if counts[p] == 1 {
                    chain = true;
                }
            },
            None => {},
        }
        shown.push(level);
        out.push((level, chain));
        j += 1;
    }
    out
}

/// A row is never shown deeper than it stands in the tree of its ancestors: the level of every
/// row is at most its true depth.
pub proof fn law_collapsing_never_deepens(d: Seq<usize>, i: int)
    requires
        0 <= i < d.len(),
    ensures
        0 <= shown_depth(d, i) <= d[i],
    decreases i,
{
    lemma_shallower_range(d, i, i);
    let p = parent_of(d, i);
    if 0 <= p < i {
        law_collapsing_never_deepens(d, p);
    }
}

/// An only child is shown at the level of its parent.
pub proof fn law_only_child_keeps_the_level(d: Seq<usize>, i: int)
    requires
        0 <= i < d.len(),
        parent_of(d, i) >= 0,
        child_count(d, parent_of(d, i)) == 1,
    ensures
        shown_depth(d, i) == shown_depth(d, parent_of(d, i)),
        in_chain(d, i),
        in_chain(d, parent_of(d, i)),
{
    lemma_shallower_range(d, i, i);
}

/// The number that a pipeline is known by; 0 for one that has none.
pub open spec fn uid(r: JV) -> int {
    r.i64_or("uid"@, 0)
}

/// The number of the pipeline that a pipeline was started by; 0 for none.
pub open spec fn parent_uid(r: JV) -> int {
    r.i64_or("parent_uid"@, 0)
}

/// The row `i` was started by a row of the list whose number is `u`.
pub open spec fn is_child(rows: Seq<JV>, i: int, u: int) -> bool {
    &&& u != 0
    &&& parent_uid(rows[i]) == u
    &&& exists|j: int| 0 <= j < rows.len() && uid(#[trigger] rows[j]) == u
}

/// No row of the list has started the row `i`.
pub open spec fn is_root(rows: Seq<JV>, i: int) -> bool {
    !is_child(rows, i, parent_uid(rows[i]))
}

/// The rows below `k` that the pipeline `u` has started, the last one first, each with `depth`.
pub open spec fn kids_before(rows: Seq<JV>, u: int, depth: int, k: int) -> Seq<(int, int)>
    decreases k,
{
    if k <= 0 {
        Seq::empty()
    } else if is_child(rows, k - 1, u) {
        seq![(k - 1, depth)] + kids_before(rows, u, depth, k - 1)
    } else {
        kids_before(rows, u, depth, k - 1)
    }
}

/// The roots below `k`, the last one first.
pub open spec fn roots_before(rows: Seq<JV>, k: int) -> Seq<(int, int)>
    decreases k,
{
    if k <= 0 {
        Seq::empty()
    } else if is_root(rows, k - 1) {
        seq![(k - 1, 0int)] + roots_before(rows, k - 1)
    } else {
        roots_before(rows, k - 1)
    }
}

/// How many rows have not been visited.
pub open spec fn unseen(seen: Seq<bool>) -> nat
    decreases seen.len(),
{
    if seen.len() == 0 {
        0
    } else {
        unseen(seen.drop_last()) + if seen.last() { 0nat } else { 1 }
    }
}

/// The rows in the order of a walk, each with its depth: `stack` holds the rows to go to, the
/// next one last, `seen` the rows that the walk has been to.
pub open spec fn walk(rows: Seq<JV>, stack: Seq<(int, int)>, seen: Seq<bool>) -> (Seq<(int, int)>, Seq<bool>)
    decreases unseen(seen), stack.len(),
    via walk_ends
{
    if stack.len() == 0 || seen.len() != rows.len() {
        (Seq::empty(), seen)
    } else {
        let (i, depth) = stack.last();
        let rest = stack.drop_last();
        if !(0 <= i < rows.len()) || seen[i] {
            walk(rows, rest, seen)
        } else {
            let after = walk(
                rows,
                rest + kids_before(rows, uid(rows[i]), depth + 1, rows.len() as int),
                seen.update(i, true),
            );
            (seq![(i, depth)] + after.0, after.1)
        }
    }
}

#[via_fn]
proof fn walk_ends(rows: Seq<JV>, stack: Seq<(int, int)>, seen: Seq<bool>) {
    if stack.len() > 0 && seen.len() == rows.len() {
        let (i, depth) = stack.last();
        if 0 <= i < rows.len() && !seen[i] {
            lemma_unseen_update(seen, i);
        }
    }
}

proof fn lemma_unseen_update(seen: Seq<bool>, i: int)
    requires
        0 <= i < seen.len(),
        !seen[i],
    ensures
        unseen(seen.update(i, true)) == unseen(seen) - 1,
    decreases seen.len(),
{
    let u = seen.update(i, true);
    if i == seen.len() - 1 {
        assert(u.drop_last() == seen.drop_last());
    } else {
        assert(u.drop_last() == seen.drop_last().update(i, true));
        lemma_unseen_update(seen.drop_last(), i);
    }
}

/// The rows below `k` that the walk has not been to.
pub open spec fn left_over(seen: Seq<bool>, k: int) -> Seq<(int, int)>
    decreases k,
{
    if k <= 0 {
        Seq::empty()
    } else if seen[k - 1] {
        left_over(seen, k - 1)
    } else {
        left_over(seen, k - 1).push((k - 1, 0int))
    }
}

/// The pipelines in the order of the tree, each with its depth: depth first from the roots, the
/// rows that one pipeline has started in their order, then what no root leads to.
pub open spec fn tree_order(rows: Seq<JV>) -> Seq<(int, int)> {
    let w = walk(rows, roots_before(rows, rows.len() as int), Seq::new(rows.len(), |i: int| false));
    w.0 + left_over(w.1, rows.len() as int)
}

/// The members of an object with `k` set to `v`.
pub open spec fn set_member(e: Seq<(Seq<char>, JV)>, k: Seq<char>, v: JV) -> Seq<(Seq<char>, JV)>
    decreases e.len(),
{
    if e.len() == 0 {
        seq![(k, v)]
    } else if e[0].0 == k {
        seq![(k, v)] + e.drop_first()
    } else {
        seq![e[0]] + set_member(e.drop_first(), k, v)
    }
}

/// A row with its depth written into it.
pub open spec fn with_depth(r: JV, depth: int) -> JV {
    match r {
        JV::Obj(e) => JV::Obj(set_member(e, "depth"@, JV::Int(depth))),
        _ => r,
    }
}

/// The rows of an order, each with its depth written into it.
pub open spec fn rows_in(rows: Seq<JV>, o: Seq<(int, int)>) -> Seq<JV> {
    Seq::new(o.len(), |m: int| with_depth(rows[o[m].0], o[m].1))
}

/// The rows of the tree.
pub open spec fn tree_rows(rows: Seq<JV>) -> Seq<JV> {
    rows_in(rows, tree_order(rows))
}

/// The members as they are seen.
spec fn members(v: Seq<(String, Json)>) -> Seq<(Seq<char>, JV)> {
    Seq::new(v.len(), |i: int| (v[i].0@, v[i].1@))
}

fn set_in(v: Vec<(String, Json)>, k: &str, d: Json) -> (r: Vec<(String, Json)>)
    ensures
        members(r@) == set_member(members(v@), k@, d@),
{
    let ghost e = members(v@);
    let n: usize = v.len();
    let mut i: usize = 0;
    while i < n && !same(v[i].0.as_str(), k)
        invariant
            i <= n == v@.len(),
            e == members(v@),
            forall|x: int| 0 <= x < i ==> e[x].0 != k@,
        decreases n - i,
    {
        i += 1;
    }
    proof {
        lemma_set_member(e, k@, d@, i as int);
    }
    let mut v: Vec<(String, Json)> = v;
    if i < n {
        v.set(i, (k.to_owned(), d));
        assert(members(v@) =~= e.update(i as int, (k@, d@)));
    } else {
        v.push((k.to_owned(), d));
        assert(members(v@) =~= e.push((k@, d@)));
    }
    v
}

proof fn lemma_set_member(e: Seq<(Seq<char>, JV)>, k: Seq<char>, v: JV, i: int)
    requires
        0 <= i <= e.len(),
        forall|x: int| 0 <= x < i ==> e[x].0 != k,
        i < e.len() ==> e[i].0 == k,
    ensures
        set_member(e, k, v) == (if i < e.len() { e.update(i, (k, v)) } else { e.push((k, v)) }),
    decreases e.len(),
{
    if e.len() == 0 {
        assert(e.push((k, v)) =~= seq![(k, v)]);
    } else if i == 0 {
        assert(e.update(0, (k, v)) =~= seq![(k, v)] + e.drop_first());
    } else {
        let t = e.drop_first();
        assert forall|x: int| 0 <= x < i - 1 implies t[x].0 != k by {
            assert(e[x + 1].0 != k);
        }
        assert(e[0].0 != k);
        lemma_set_member(t, k, v, i - 1);
        if i < e.len() {
            assert(e.update(i, (k, v)) =~= seq![e[0]] + t.update(i - 1, (k, v)));
        } else {
            assert(e.push((k, v)) =~= seq![e[0]] + t.push((k, v)));
        }
    }
}

fn stamp(r: Json, depth: usize) -> (s: Json)
    ensures
        s@ == with_depth(r@, depth as int),
{
    let ghost before = r@;
    match r {
        Json::Obj(v) => {
            assert(before->Obj_0 =~= members(v@));
            let w: Vec<(String, Json)> = set_in(v, "depth", Json::whole(depth as u64));
            let s: Json = Json::Obj(w);
            assert(s@->Obj_0 =~= members(w@));
            s
        },
        other => other,
    }
}

fn has_uid(rows: &Vec<Json>, u: i64) -> (r: bool)
    ensures
        r == exists|j: int| 0 <= j < jvs(rows@).len() && uid(#[trigger] jvs(rows@)[j]) == u as int,
{
    let mut j: usize = 0;
    while j < rows.len()
        invariant
            j <= rows@.len(),
            forall|x: int| 0 <= x < j ==> uid(#[trigger] jvs(rows@)[x]) != u as int,
        decreases rows@.len() - j,
    {
        assert(jvs(rows@)[j as int] == rows@[j as int]@);
        if rows[j].i64_or("uid", 0) == u {
            assert(uid(jvs(rows@)[j as int]) == u as int);
            return true;
        }
        j += 1;
    }
    false
}

fn child_of(rows: &Vec<Json>, i: usize, u: i64) -> (r: bool)
    requires
        i < rows@.len(),
    ensures
        r == is_child(jvs(rows@), i as int, u as int),
{
    assert(jvs(rows@)[i as int] == rows@[i as int]@);
    u != 0 && rows[i].i64_or("parent_uid", 0) == u && has_uid(rows, u)
}

spec fn stack_v(s: Seq<(usize, usize)>) -> Seq<(int, int)> {
    s.map_values(|p: (usize, usize)| (p.0 as int, p.1 as int))
}

/// The depth of no row on the stack is larger than the number of rows that were visited.
spec fn shallow(s: Seq<(usize, usize)>, bound: int) -> bool {
    forall|m: int| 0 <= m < s.len() ==> (#[trigger] s[m]).1 <= bound
}

/// Puts the rows of a list of pipelines in the order of the tree that their numbers make, each
/// with its depth.
pub fn build_pipeline_tree(rows: Vec<Json>) -> (r: Vec<Json>)
    ensures
        jvs(r@) == tree_rows(jvs(rows@)),
{
    let n: usize = rows.len();
    let ghost rv = jvs(rows@);
    let mut seen: Vec<bool> = Vec::new();
    let mut z: usize = 0;
    while z < n
        invariant
            z <= n,
            seen@.len() == z,
            forall|x: int| 0 <= x < z ==> !seen@[x],
        decreases n - z,
    {
        seen.push(false);
        z += 1;
    }
    let mut stack: Vec<(usize, usize)> = Vec::new();
    let mut k: usize = n;
    assert(stack_v(stack@) + roots_before(rv, k as int) =~= roots_before(rv, n as int));
    while k > 0
        invariant
            k <= n == rows@.len(),
            rv == jvs(rows@),
            stack_v(stack@) + roots_before(rv, k as int) == roots_before(rv, n as int),
            shallow(stack@, 0),
        decreases k,
    {
        let i: usize = k - 1;
        let ghost before = stack@;
        let p: i64 = rows[i].i64_or("parent_uid", 0);
        assert(rv[i as int] == rows@[i as int]@);
        let kid: bool = child_of(&rows, i, p);
        if !kid {
            stack.push((i, 0));
            assert(stack_v(stack@) =~= stack_v(before).push((i as int, 0)));
            assert(stack_v(stack@) + roots_before(rv, i as int) =~= stack_v(before) + roots_before(rv, k as int));
        }
        k = i;
    }
    assert(stack_v(stack@) =~= roots_before(rv, n as int));
    assert(seen@ =~= Seq::new(rv.len(), |i: int| false));
    let ghost whole = walk(rv, stack_v(stack@), seen@);
    let mut out: Vec<Json> = Vec::new();
    let ghost mut order: Seq<(int, int)> = Seq::empty();
    let mut visits: usize = 0;
    proof {
        lemma_unseen_bound(seen@);
    }
    let ghost total = unseen(seen@);
    while stack.len() > 0
        invariant
            n == rows@.len() == rv.len(),
            rv == jvs(rows@),
            seen@.len() == n,
            shallow(stack@, visits as int),
            visits + unseen(seen@) == total <= n,
            whole.0 == order + walk(rv, stack_v(stack@), seen@).0,
            whole.1 == walk(rv, stack_v(stack@), seen@).1,
            jvs(out@) == rows_in(rv, order),
        decreases unseen(seen@), stack@.len(),
    {
        let ghost st = stack_v(stack@);
        let ghost stk = stack@;
        let top: (usize, usize) = stack[stack.len() - 1];
        let _ = stack.pop();
        let i: usize = top.0;
        let depth: usize = top.1;
        assert(st.last() == (i as int, depth as int));
        assert(stack_v(stack@) =~= st.drop_last());
        assert(stk[stk.len() - 1] == top);
        let fresh: bool = i < n && !seen[i];
        if fresh {
            let ghost old_seen = seen@;
            proof {
                lemma_unseen_update(old_seen, i as int);
            }
            seen.set(i, true);
            visits += 1;
            let ghost row = rv[i as int];
            assert(row == rows@[i as int]@);
            let ghost prev = out@;
            out.push(stamp(rows[i].copy(), depth));
            let u: i64 = rows[i].i64_or("uid", 0);
            let mut k: usize = n;
            let ghost kids = kids_before(rv, uid(row), depth + 1, n as int);
            let ghost base = stack@;
            assert(stack_v(stack@) + kids_before(rv, uid(row), depth + 1, k as int) =~= stack_v(base) + kids);
            while k > 0
                invariant
                    k <= n == rows@.len(),
                    rv == jvs(rows@),
                    u as int == uid(row),
                    depth + 1 <= visits,
                    stack_v(stack@) + kids_before(rv, uid(row), depth + 1, k as int) == stack_v(base) + kids,
                    shallow(stack@, visits as int),
                decreases k,
            {
                let c: usize = k - 1;
                let ghost before = stack@;
                if child_of(&rows, c, u) {
                    stack.push((c, depth + 1));
                    assert(stack_v(stack@) =~= stack_v(before).push((c as int, depth + 1)));
                    assert(stack_v(stack@) + kids_before(rv, uid(row), depth + 1, c as int) =~= stack_v(before)
                        + kids_before(rv, uid(row), depth + 1, k as int));
                }
                k = c;
            }
            assert(stack_v(stack@) =~= stack_v(base) + kids);
            proof {
                let grown = order.push((i as int, depth as int));
                assert(jvs(out@) =~= jvs(prev).push(with_depth(row, depth as int)));
                assert(rows_in(rv, grown) =~= rows_in(rv, order).push(with_depth(row, depth as int)));
                assert(order + (seq![(i as int, depth as int)] + walk(rv, stack_v(stack@), seen@).0) =~= grown
                    + walk(rv, stack_v(stack@), seen@).0);
                order = grown;
            }
        }
    }
    assert(whole.0 =~= order);
    let ghost walked = order;
    let mut j: usize = 0;
    assert(order =~= walked + left_over(seen@, 0));
    while j < n
        invariant
            j <= n == rows@.len() == rv.len(),
            rv == jvs(rows@),
            seen@.len() == n,
            order == walked + left_over(seen@, j as int),
            jvs(out@) == rows_in(rv, order),
        decreases n - j,
    {
        if !seen[j] {
            let ghost prev = out@;
            assert(rv[j as int] == rows@[j as int]@);
            out.push(stamp(rows[j].copy(), 0));
            proof {
                let grown = order.push((j as int, 0int));
                assert(jvs(out@) =~= jvs(prev).push(with_depth(rv[j as int], 0)));
                assert(rows_in(rv, grown) =~= rows_in(rv, order).push(with_depth(rv[j as int], 0)));
                assert(grown =~= walked + left_over(seen@, j + 1));
                order = grown;
            }
        }
        j += 1;
    }
    out
}

proof fn lemma_unseen_bound(seen: Seq<bool>)
    ensures
        unseen(seen) <= seen.len(),
    decreases seen.len(),
{
    if seen.len() > 0 {
        lemma_unseen_bound(seen.drop_last());
    }
}

/// The row `i` occurs in an order.
pub open spec fn occurs(o: Seq<(int, int)>, i: int) -> bool {
    exists|m: int| 0 <= m < o.len() && (#[trigger] o[m]).0 == i
}

/// What a walk goes through is what it had not been to before and has been to afterwards, each
/// row once.
proof fn lemma_walk_visits(rows: Seq<JV>, stack: Seq<(int, int)>, seen: Seq<bool>)
    requires
        seen.len() == rows.len(),
    ensures
        walk(rows, stack, seen).1.len() == rows.len(),
        forall|i: int|
            0 <= i < rows.len() ==> (#[trigger] walk(rows, stack, seen).1[i] <==> seen[i] || occurs(
                walk(rows, stack, seen).0,
                i,
            )),
        forall|m: int|
            0 <= m < walk(rows, stack, seen).0.len() ==> 0 <= (#[trigger] walk(rows, stack, seen).0[m]).0
                < rows.len() && !seen[walk(rows, stack, seen).0[m].0],
        forall|a: int, b: int|
            0 <= a < b < walk(rows, stack, seen).0.len() ==> (#[trigger] walk(rows, stack, seen).0[a]).0
                != (#[trigger] walk(rows, stack, seen).0[b]).0,
    decreases unseen(seen), stack.len(),
{
    if stack.len() > 0 {
        let (i, depth) = stack.last();
        let rest = stack.drop_last();
        if !(0 <= i < rows.len()) || seen[i] {
            lemma_walk_visits(rows, rest, seen);
        } else {
            lemma_unseen_update(seen, i);
            let next = rest + kids_before(rows, uid(rows[i]), depth + 1, rows.len() as int);
            let s2 = seen.update(i, true);
            lemma_walk_visits(rows, next, s2);
            let w2 = walk(rows, next, s2);
            let w = walk(rows, stack, seen);
            assert(w.0 == seq![(i, depth)] + w2.0);
            assert(w.1 == w2.1);
            assert(w.0[0].0 == i);
            assert forall|x: int| 0 <= x < rows.len() implies (#[trigger] w.1[x] <==> seen[x] || occurs(w.0, x)) by {
                if occurs(w2.0, x) {
                    let m = choose|m: int| 0 <= m < w2.0.len() && (#[trigger] w2.0[m]).0 == x;
                    assert(w.0[m + 1].0 == x);
                }
                if occurs(w.0, x) {
                    let m = choose|m: int| 0 <= m < w.0.len() && (#[trigger] w.0[m]).0 == x;
                    if m > 0 {
                        assert(w2.0[m - 1].0 == x);
                    }
                }
            }
            assert forall|m: int| 0 <= m < w.0.len() implies 0 <= (#[trigger] w.0[m]).0 < rows.len()
                && !seen[w.0[m].0] by {
                if m > 0 {
                    assert(w.0[m] == w2.0[m - 1]);
                    assert(!s2[w2.0[m - 1].0]);
                }
            }
            assert forall|a: int, b: int| 0 <= a < b < w.0.len() implies (#[trigger] w.0[a]).0 != (
            #[trigger] w.0[b]).0 by {
                assert(w.0[b] == w2.0[b - 1]);
                assert(!s2[w2.0[b - 1].0]);
                if a > 0 {
                    assert(w.0[a] == w2.0[a - 1]);
                }
            }
        }
    }
}

proof fn lemma_left_over(seen: Seq<bool>, k: int)
    requires
        0 <= k <= seen.len(),
    ensures
        forall|m: int|
            0 <= m < left_over(seen, k).len() ==> 0 <= (#[trigger] left_over(seen, k)[m]).0 < k && !seen[left_over(
                seen,
                k,
            )[m].0],
        forall|i: int| 0 <= i < k && !#[trigger] seen[i] ==> occurs(left_over(seen, k), i),
        forall|a: int, b: int|
            0 <= a < b < left_over(seen, k).len() ==> (#[trigger] left_over(seen, k)[a]).0 < (#[trigger] left_over(
                seen,
                k,
            )[b]).0,
    decreases k,
{
    if k > 0 {
        lemma_left_over(seen, k - 1);
        let p = left_over(seen, k - 1);
        let q = left_over(seen, k);
        assert forall|i: int| 0 <= i < k && !#[trigger] seen[i] implies occurs(q, i) by {
            if i < k - 1 {
                let m = choose|m: int| 0 <= m < p.len() && (#[trigger] p[m]).0 == i;
                assert(q[m].0 == i);
            } else {
                assert(q[q.len() - 1].0 == i);
            }
        }
    }
}

/// The tree holds every row of the list exactly once: nothing is dropped, nothing shown twice.
pub proof fn law_tree_order_is_a_permutation(rows: Seq<JV>)
    ensures
        forall|i: int| 0 <= i < rows.len() ==> #[trigger] occurs(tree_order(rows), i),
        forall|m: int| 0 <= m < tree_order(rows).len() ==> 0 <= (#[trigger] tree_order(rows)[m]).0 < rows.len(),
        forall|a: int, b: int|
            0 <= a < b < tree_order(rows).len() ==> (#[trigger] tree_order(rows)[a]).0 != (#[trigger] tree_order(
                rows,
            )[b]).0,
{
    let none = Seq::new(rows.len(), |i: int| false);
    let roots = roots_before(rows, rows.len() as int);
    lemma_walk_visits(rows, roots, none);
    let w = walk(rows, roots, none);
    lemma_left_over(w.1, rows.len() as int);
    let l = left_over(w.1, rows.len() as int);
    let t = tree_order(rows);
    assert(t == w.0 + l);
    assert forall|i: int| 0 <= i < rows.len() implies #[trigger] occurs(t, i) by {
        if w.1[i] {
            let m = choose|m: int| 0 <= m < w.0.len() && (#[trigger] w.0[m]).0 == i;
            assert(t[m].0 == i);
        } else {
            let m = choose|m: int| 0 <= m < l.len() && (#[trigger] l[m]).0 == i;
            assert(t[w.0.len() + m].0 == i);
        }
    }
    assert forall|m: int| 0 <= m < t.len() implies 0 <= (#[trigger] t[m]).0 < rows.len() by {
        if m >= w.0.len() {
            assert(t[m] == l[m - w.0.len()]);
        } else {
            assert(t[m] == w.0[m]);
        }
    }
    assert forall|a: int, b: int| 0 <= a < b < t.len() implies (#[trigger] t[a]).0 != (#[trigger] t[b]).0 by {
        if b < w.0.len() {
            assert(t[a] == w.0[a] && t[b] == w.0[b]);
        } else if a >= w.0.len() {
            assert(t[a] == l[a - w.0.len()] && t[b] == l[b - w.0.len()]);
        } else {
            assert(t[a] == w.0[a]);
            assert(t[b] == l[b - w.0.len()]);
            assert(w.1[w.0[a].0]) by {
                assert(occurs(w.0, w.0[a].0));
            }
        }
    }
}

/// The entry of an order is at the outermost level, or an entry of `before` one level up has
/// started its pipeline.
pub open spec fn started_by_one_of(rows: Seq<JV>, before: Seq<(int, int)>, e: (int, int)) -> bool {
    e.1 == 0 || exists|a: int|
        0 <= a < before.len() && (#[trigger] before[a]).1 + 1 == e.1 && uid(rows[before[a].0]) == parent_uid(rows[e.0])
}

proof fn lemma_started_later(rows: Seq<JV>, before: Seq<(int, int)>, more: Seq<(int, int)>, e: (int, int))
    requires
        started_by_one_of(rows, before, e),
    ensures
        started_by_one_of(rows, before + more, e),
{
    if e.1 != 0 {
        let a = choose|a: int|
            0 <= a < before.len() && (#[trigger] before[a]).1 + 1 == e.1 && uid(rows[before[a].0]) == parent_uid(
                rows[e.0],
            );
        assert((before + more)[a] == before[a]);
    }
}

proof fn lemma_kids(rows: Seq<JV>, u: int, depth: int, k: int)
    requires
        0 <= k <= rows.len(),
    ensures
        forall|m: int|
            0 <= m < kids_before(rows, u, depth, k).len() ==> {
                &&& 0 <= (#[trigger] kids_before(rows, u, depth, k)[m]).0 < k
                &&& kids_before(rows, u, depth, k)[m].1 == depth
                &&& parent_uid(rows[kids_before(rows, u, depth, k)[m].0]) == u
            },
    decreases k,
{
    if k > 0 {
        lemma_kids(rows, u, depth, k - 1);
        let rest = kids_before(rows, u, depth, k - 1);
        let all = kids_before(rows, u, depth, k);
        assert forall|m: int| 0 <= m < all.len() implies {
            &&& 0 <= (#[trigger] all[m]).0 < k
            &&& all[m].1 == depth
            &&& parent_uid(rows[all[m].0]) == u
        } by {
            if is_child(rows, k - 1, u) {
                if m > 0 {
                    assert(all[m] == rest[m - 1]);
                }
            } else {
                assert(all[m] == rest[m]);
            }
        }
    }
}

/// The walk goes to a pipeline after it has been to the one that started it.
proof fn lemma_walk_nests(rows: Seq<JV>, before: Seq<(int, int)>, stack: Seq<(int, int)>, seen: Seq<bool>)
    requires
        seen.len() == rows.len(),
        forall|m: int| 0 <= m < stack.len() ==> started_by_one_of(rows, before, #[trigger] stack[m]),
    ensures
        forall|m: int|
            0 <= m < walk(rows, stack, seen).0.len() ==> started_by_one_of(
                rows,
                before + walk(rows, stack, seen).0.take(m),
                #[trigger] walk(rows, stack, seen).0[m],
            ),
    decreases unseen(seen), stack.len(),
{
    if stack.len() > 0 {
        let (i, depth) = stack.last();
        let rest = stack.drop_last();
        if !(0 <= i < rows.len()) || seen[i] {
            assert forall|m: int| 0 <= m < rest.len() implies started_by_one_of(rows, before, #[trigger] rest[m]) by {
                assert(rest[m] == stack[m]);
            }
            lemma_walk_nests(rows, before, rest, seen);
            assert(walk(rows, stack, seen) == walk(rows, rest, seen));
        } else {
            lemma_unseen_update(seen, i);
            let kids = kids_before(rows, uid(rows[i]), depth + 1, rows.len() as int);
            let after = before.push((i, depth));
            lemma_kids(rows, uid(rows[i]), depth + 1, rows.len() as int);
            assert(after =~= before + seq![(i, depth)]);
            let all = rest + kids;
            assert forall|m: int| 0 <= m < all.len() implies started_by_one_of(rows, after, #[trigger] all[m]) by {
                if m < rest.len() {
                    assert(all[m] == stack[m]);
                    lemma_started_later(rows, before, seq![(i, depth)], stack[m]);
                } else {
                    assert(all[m] == kids[m - rest.len()]);
                    assert(after[before.len() as int] == (i, depth));
                }
            }
            lemma_walk_nests(rows, after, all, seen.update(i, true));
            let w = walk(rows, all, seen.update(i, true)).0;
            let whole = walk(rows, stack, seen).0;
            assert(whole == seq![(i, depth)] + w);
            assert forall|m: int| 0 <= m < whole.len() implies started_by_one_of(
                rows,
                before + whole.take(m),
                #[trigger] whole[m],
            ) by {
                if m == 0 {
                    assert(before + whole.take(0) =~= before);
                    assert(whole[0] == stack[stack.len() - 1]);
                } else {
                    assert(whole[m] == w[m - 1]);
                    assert(before + whole.take(m) =~= after + w.take(m - 1));
                }
            }
        }
    }
}

proof fn lemma_roots(rows: Seq<JV>, k: int)
    ensures
        forall|m: int| 0 <= m < roots_before(rows, k).len() ==> (#[trigger] roots_before(rows, k)[m]).1 == 0,
    decreases k,
{
    if k > 0 {
        lemma_roots(rows, k - 1);
        let rest = roots_before(rows, k - 1);
        let all = roots_before(rows, k);
        assert forall|m: int| 0 <= m < all.len() implies (#[trigger] all[m]).1 == 0 by {
            if is_root(rows, k - 1) {
                if m > 0 {
                    assert(all[m] == rest[m - 1]);
                }
            } else {
                assert(all[m] == rest[m]);
            }
        }
    }
}

proof fn lemma_left_over_flat(seen: Seq<bool>, k: int)
    ensures
        forall|m: int| 0 <= m < left_over(seen, k).len() ==> (#[trigger] left_over(seen, k)[m]).1 == 0,
    decreases k,
{
    if k > 0 {
        lemma_left_over_flat(seen, k - 1);
        let rest = left_over(seen, k - 1);
        let all = left_over(seen, k);
        assert forall|m: int| 0 <= m < all.len() implies (#[trigger] all[m]).1 == 0 by {
            if m < rest.len() {
                assert(all[m] == rest[m]);
            }
        }
    }
}

/// Every pipeline below the outermost level of the tree stands behind one that has started it,
/// one level up.
pub proof fn law_tree_nests_by_number(rows: Seq<JV>, m: int)
    requires
        0 <= m < tree_order(rows).len(),
    ensures
        started_by_one_of(rows, tree_order(rows).take(m), tree_order(rows)[m]),
{
    let n = rows.len() as int;
    let none = Seq::new(rows.len(), |i: int| false);
    let roots = roots_before(rows, n);
    lemma_roots(rows, n);
    lemma_walk_nests(rows, Seq::empty(), roots, none);
    let w = walk(rows, roots, none);
    let t = tree_order(rows);
    if m < w.0.len() {
        assert(t[m] == w.0[m]);
        assert(Seq::<(int, int)>::empty() + w.0.take(m) =~= t.take(m));
    } else {
        lemma_left_over_flat(w.1, n);
        assert(t[m] == left_over(w.1, n)[m - w.0.len()]);
    }
}

/// The rows from `k` on, each at the outermost level.
spec fn flat_from(n: int, k: int) -> Seq<(int, int)> {
    Seq::new((n - k) as nat, |m: int| (k + m, 0int))
}

/// The rows from the last one down to `k`, each at the outermost level.
spec fn flat_down(n: int, k: int) -> Seq<(int, int)> {
    Seq::new((n - k) as nat, |m: int| (n - 1 - m, 0int))
}

/// The rows before `k` have been visited.
spec fn seen_up_to(n: int, k: int) -> Seq<bool> {
    Seq::new(n as nat, |i: int| i < k)
}

proof fn lemma_flat_roots(rows: Seq<JV>, k: int)
    requires
        0 <= k <= rows.len(),
        forall|i: int| 0 <= i < rows.len() ==> parent_uid(#[trigger] rows[i]) == 0,
    ensures
        roots_before(rows, k) == flat_down(k, 0),
    decreases k,
{
    if k > 0 {
        lemma_flat_roots(rows, k - 1);
        assert(parent_uid(rows[k - 1]) == 0);
        assert(seq![(k - 1, 0int)] + flat_down(k - 1, 0) =~= flat_down(k, 0));
    } else {
        assert(flat_down(0, 0) =~= Seq::empty());
    }
}

proof fn lemma_no_kids(rows: Seq<JV>, u: int, depth: int, k: int)
    requires
        0 <= k <= rows.len(),
        forall|i: int| 0 <= i < rows.len() ==> parent_uid(#[trigger] rows[i]) == 0,
    ensures
        kids_before(rows, u, depth, k) == Seq::<(int, int)>::empty(),
    decreases k,
{
    if k > 0 {
        assert(parent_uid(rows[k - 1]) == 0);
        lemma_no_kids(rows, u, depth, k - 1);
    }
}

proof fn lemma_flat_walk(rows: Seq<JV>, k: int)
    requires
        0 <= k <= rows.len(),
        forall|i: int| 0 <= i < rows.len() ==> parent_uid(#[trigger] rows[i]) == 0,
    ensures
        walk(rows, flat_down(rows.len() as int, k), seen_up_to(rows.len() as int, k)) == (
            flat_from(rows.len() as int, k),
            seen_up_to(rows.len() as int, rows.len() as int),
        ),
    decreases rows.len() - k,
{
    let n = rows.len() as int;
    let stack = flat_down(n, k);
    if k < n {
        assert(stack.last() == (k, 0int));
        lemma_no_kids(rows, uid(rows[k]), 1, n);
        assert(stack.drop_last() + Seq::<(int, int)>::empty() =~= flat_down(n, k + 1));
        assert(seen_up_to(n, k).update(k, true) =~= seen_up_to(n, k + 1));
        lemma_flat_walk(rows, k + 1);
        assert(seq![(k, 0int)] + flat_from(n, k + 1) =~= flat_from(n, k));
    } else {
        assert(flat_from(n, k) =~= Seq::empty());
    }
}

proof fn lemma_none_left(n: int, k: int)
    requires
        0 <= k <= n,
    ensures
        left_over(seen_up_to(n, n), k) == Seq::<(int, int)>::empty(),
    decreases k,
{
    if k > 0 {
        lemma_none_left(n, k - 1);
    }
}

/// Pipelines of which none is known to have been started by another stay as they are, all at the
/// outermost level.
pub proof fn law_rows_without_parents_stay_flat(rows: Seq<JV>)
    requires
        forall|i: int| 0 <= i < rows.len() ==> parent_uid(#[trigger] rows[i]) == 0,
    ensures
        tree_order(rows) == Seq::new(rows.len(), |i: int| (i, 0int)),
{
    let n = rows.len() as int;
    lemma_flat_roots(rows, n);
    assert(Seq::new(rows.len(), |i: int| false) =~= seen_up_to(n, 0));
    lemma_flat_walk(rows, 0);
    lemma_none_left(n, n);
    assert(flat_from(n, 0) + Seq::<(int, int)>::empty() =~= Seq::new(rows.len(), |i: int| (i, 0int)));
}

} // verus!
