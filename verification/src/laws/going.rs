//! Going from a row to what belongs to it in another list.

use vstd::prelude::*;

#[allow(unused_imports)]
use crate::app::{App, Domain, Op, StepV, Then};
#[allow(unused_imports)]
use crate::diff::ints;
#[allow(unused_imports)]
use crate::json::{Json, JV};
#[allow(unused_imports)]
use crate::laws::filtering::{law_a_filter_is_sent_clause_by_clause, law_a_narrowed_list_shows_its_numbers, tells};
#[allow(unused_imports)]
use crate::laws::{at_row, on_box, only_plans};
#[allow(unused_imports)]
use crate::nav::{id_pattern, number_values, numbers_in};
#[allow(unused_imports)]
use crate::plan::Turn;
#[allow(unused_imports)]
use crate::rules::{listed, ClauseV, Join};
#[allow(unused_imports)]
use crate::types::{FilterView, Pane};

verus! {

/// The pane shows that list.
pub open spec fn shows(p: Pane, v: FilterView) -> bool {
    ||| p == Pane::Changes && v == FilterView::Changes
    ||| p == Pane::Processes && v == FilterView::Procs
    ||| p == Pane::Outputs && v == FilterView::Outputs
    ||| p == Pane::Pipelines && v == FilterView::Pipelines
    ||| p == Pane::BuildEdges && v == FilterView::BuildEdges
}

/// A list is narrowed to the rows of some numbers, and the engine is told so.
pub open spec fn narrowed(c: App, v: FilterView, ids: Seq<int>) -> bool {
    let cs = c.filter(v)@.clauses;
    &&& c.filter(v).on
    &&& c.filter(v).generated
    &&& c.win(v).sel == 0
    &&& cs.len() == 1
    &&& cs[0].kind == "ids"@
    &&& !cs[0].negate
    &&& cs[0].enabled
    &&& (forall|i: int| 0 <= i < ids.len() ==> #[trigger] ids[i] >= 0) ==> forall|id: int| #[trigger]
        listed(cs[0].pattern, Seq::empty(), id) == ids.contains(id)
    &&& c.win(v).view is Some && !c.shown.err_only ==> {
        &&& c.plan().len() > 0
        &&& c.plan()[0] matches StepV::Call(verb, args, _) && {
            &&& verb == "view.filter"@
            &&& args.len() == 2
            &&& args[0] == JV::Int(c.win(v).view->0 as int)
            &&& args[1] matches JV::Arr(items) && items.len() == 1 && tells(items[0], cs[0])
        }
    }
}

proof fn lemma_narrowed(a: App, v: FilterView, ids: Seq<int>, c: App)
    requires
        ids.len() > 0,
        a.install_v(v, Some(ids), c),
    ensures
        narrowed(c, v, ids),
{
    let cs = c.filter(v)@.clauses;
    law_a_filter_is_sent_clause_by_clause(cs);
    if forall|i: int| 0 <= i < ids.len() ==> #[trigger] ids[i] >= 0 {
        assert forall|id: int| #[trigger] listed(cs[0].pattern, Seq::empty(), id) == ids.contains(id) by {
            law_a_narrowed_list_shows_its_numbers(ids, id);
        }
    }
}

/// What is asked of the engine to turn numbers of one sort into those of another.
pub open spec fn mapping(sid: Seq<char>, from: Seq<char>, ids: Seq<int>, to: Seq<char>, v: FilterView) -> StepV {
    StepV::Call(
        "review.map_ids"@,
        seq![JV::Str(sid), JV::Str(from), JV::Arr(ids.map_values(|n: int| JV::Int(n))), JV::Str(to)],
        Then::Translated(v),
    )
}

proof fn lemma_turned(b: App, t: Turn, c: App, from: Domain, dest: FilterView, rest: Seq<StepV>, sid: Seq<char>, ids: Seq<int>)
    requires
        b.plan() == seq![StepV::Op(Op::Translate(from, dest))] + rest,
        b.next_v(t, c),
        on_box(b, sid),
        ints(b.jobs.nav_ids@) == ids,
        ids.len() > 0,
    ensures
        t is Done,
        crate::nav::domain_of(dest) == from ==> narrowed(c, dest, ids),
        crate::nav::domain_of(dest) != from ==> only_plans(b, c) && c.plan() == seq![
            mapping(sid, crate::nav::domain_name(from), ids, crate::nav::domain_name(crate::nav::domain_of(dest)), dest),
        ] + rest,
{
    let op = Op::Translate(from, dest);
    assert(b.plan()[0] == StepV::Op(op));
    let mid = choose|mid: App|
        {
            &&& #[trigger] mid.plan() == b.plan().skip(1)
            &&& mid == (App { todo: mid.todo, ..b })
            &&& t is Done && mid.op_v(op, c)
        };
    assert(mid.plan() =~= rest);
    assert(mid.translate_v(from, dest, c));
    assert(number_values(ids) =~= ids.map_values(|n: int| JV::Int(n)));
    if crate::nav::domain_of(dest) == from {
        lemma_narrowed(mid, dest, ids, c);
    }
}

/// From a target, the engine is asked what belongs to that edge, whatever list is gone to: its
/// number is that of no process and of no pipeline.
pub proof fn law_a_target_leads_to_what_belongs_to_it(a: App, b: App, t: Turn, c: App, pane: Pane, v: FilterView, sid: Seq<char>, n: i64)
    requires
        a.ui.focus == Pane::BuildEdges,
        at_row(a.lists.edges, "id"@, JV::Int(n as int)),
        on_box(a, sid),
        shows(pane, v),
        pane != Pane::BuildEdges,
        a.nav_v(pane, b),
        b.next_v(t, c),
    ensures
        t is Done,
        c.filters == a.filters,
        c.plan().len() > 0,
        c.plan()[0] == mapping(
            sid,
            "edge"@,
            seq![n as int],
            if pane == Pane::Pipelines { "pipeline"@ } else { "process"@ },
            v,
        ),
        c.plan().skip(1) == seq![StepV::Op(Op::Focus(pane))] + a.plan(),
{
    let rest = seq![StepV::Op(Op::Focus(pane))] + a.plan();
    assert(b.plan() =~= seq![StepV::Op(Op::Translate(Domain::Edge, v))] + rest);
    lemma_turned(b, t, c, Domain::Edge, v, rest, sid, seq![n as int]);
    assert(c.plan().skip(1) =~= rest);
}

/// From a process, the changes and the outputs are narrowed to its own; the engine is asked for its
/// pipelines and its targets.
pub proof fn law_a_process_leads_to_what_belongs_to_it(a: App, b: App, t: Turn, c: App, pane: Pane, v: FilterView, sid: Seq<char>, n: i64)
    requires
        a.ui.focus == Pane::Processes,
        at_row(a.lists.processes, "rid"@, JV::Int(n as int)),
        on_box(a, sid),
        shows(pane, v),
        pane != Pane::Processes,
        a.nav_v(pane, b),
        b.next_v(t, c),
    ensures
        t is Done,
        pane == Pane::Changes || pane == Pane::Outputs ==> narrowed(c, v, seq![n as int]),
        pane == Pane::Pipelines ==> c.filters == a.filters && c.plan().len() > 0 && c.plan()[0] == mapping(
            sid,
            "process"@,
            seq![n as int],
            "pipeline"@,
            v,
        ),
        pane == Pane::BuildEdges ==> c.filters == a.filters && c.plan().len() > 0 && c.plan()[0] == mapping(
            sid,
            "process"@,
            seq![n as int],
            "edge"@,
            v,
        ),
{
    let rest = seq![StepV::Op(Op::Focus(pane))] + a.plan();
    assert(b.plan() =~= seq![StepV::Op(Op::Translate(Domain::Process, v))] + rest);
    lemma_turned(b, t, c, Domain::Process, v, rest, sid, seq![n as int]);
}

/// From an output, the changes and the processes are narrowed to those of its process, and the
/// engine is asked for the targets of it.
pub proof fn law_an_output_leads_to_its_process(a: App, b: App, t: Turn, c: App, pane: Pane, v: FilterView, sid: Seq<char>, n: i64)
    requires
        a.ui.focus == Pane::Outputs,
        at_row(a.lists.outputs, "process_id"@, JV::Int(n as int)),
        on_box(a, sid),
        shows(pane, v),
        pane == Pane::Changes || pane == Pane::Processes || pane == Pane::BuildEdges,
        a.nav_v(pane, b),
        b.next_v(t, c),
    ensures
        t is Done,
        pane == Pane::Changes || pane == Pane::Processes ==> narrowed(c, v, seq![n as int]),
        pane == Pane::BuildEdges ==> c.filters == a.filters && c.plan().len() > 0 && c.plan()[0] == mapping(
            sid,
            "process"@,
            seq![n as int],
            "edge"@,
            v,
        ),
{
    let rest = seq![StepV::Op(Op::Focus(pane))] + a.plan();
    assert(b.plan() =~= seq![StepV::Op(Op::Translate(Domain::Process, v))] + rest);
    lemma_turned(b, t, c, Domain::Process, v, rest, sid, seq![n as int]);
}

/// From an output to the pipelines, the engine is asked for the pipeline of that output.
pub proof fn law_an_output_leads_to_its_pipeline(a: App, b: App, sid: Seq<char>, n: i64)
    requires
        a.ui.focus == Pane::Outputs,
        at_row(a.lists.outputs, "id"@, JV::Int(n as int)),
        on_box(a, sid),
        a.nav_v(Pane::Pipelines, b),
    ensures
        b.jobs.nav_ids@.len() == 0,
        b.filters == a.filters,
        b.plan() == seq![
            StepV::Call("output_pipeline"@, seq![JV::Str(sid), JV::Int(n as int)], Then::OutputPipeline),
            StepV::Op(Op::Translate(Domain::Pipeline, FilterView::Pipelines)),
            StepV::Op(Op::Focus(Pane::Pipelines)),
        ] + a.plan(),
{
    assert(ints(b.jobs.nav_ids@).len() == b.jobs.nav_ids@.len());
    assert(b.plan() =~= seq![
        StepV::Call("output_pipeline"@, seq![JV::Str(sid), JV::Int(n as int)], Then::OutputPipeline),
        StepV::Op(Op::Translate(Domain::Pipeline, FilterView::Pipelines)),
        StepV::Op(Op::Focus(Pane::Pipelines)),
    ] + a.plan());
}

/// What the engine says is the pipeline of an output narrows the pipelines to that one.
pub proof fn law_the_pipeline_of_an_output_is_shown(a: App, j: Json, b: App, t: Turn, c: App, sid: Seq<char>, n: i64, rest: Seq<StepV>)
    requires
        j@.get("id"@) == Some(JV::Int(n as int)),
        a.answer_v(Then::OutputPipeline, Ok(j), b),
        a.plan() == seq![StepV::Op(Op::Translate(Domain::Pipeline, FilterView::Pipelines))] + rest,
        on_box(a, sid),
        b.next_v(t, c),
    ensures
        narrowed(c, FilterView::Pipelines, seq![n as int]),
{
    assert(b.plan() == a.plan());
    lemma_turned(b, t, c, Domain::Pipeline, FilterView::Pipelines, rest, sid, seq![n as int]);
}

/// The numbers of a list of numbers.
proof fn lemma_numbers(v: Seq<int>)
    requires
        forall|i: int| 0 <= i < v.len() ==> i64::MIN <= #[trigger] v[i] <= i64::MAX,
    ensures
        numbers_in(v.map_values(|n: int| JV::Int(n))) == v,
    decreases v.len(),
{
    let w = v.map_values(|n: int| JV::Int(n));
    if v.len() > 0 {
        let front = v.drop_last();
        assert forall|i: int| 0 <= i < front.len() implies i64::MIN <= #[trigger] front[i] <= i64::MAX by {
            assert(front[i] == v[i]);
        }
        lemma_numbers(front);
        assert(w.drop_last() =~= front.map_values(|n: int| JV::Int(n)));
        assert(i64::MIN <= v[v.len() - 1] <= i64::MAX);
        assert(w.last() == JV::Int(v.last()));
    }
    assert(numbers_in(w) =~= v);
}

/// From a pipeline, the changes, the processes and the outputs are narrowed to those of its
/// processes.
pub proof fn law_a_pipeline_leads_to_its_processes(a: App, b: App, t: Turn, c: App, pane: Pane, v: FilterView, sid: Seq<char>, ids: Seq<int>)
    requires
        a.ui.focus == Pane::Pipelines,
        ids.len() > 0,
        forall|i: int| 0 <= i < ids.len() ==> i64::MIN <= #[trigger] ids[i] <= i64::MAX,
        at_row(a.lists.pipelines, "processes"@, JV::Arr(ids.map_values(|n: int| JV::Int(n)))),
        on_box(a, sid),
        shows(pane, v),
        pane == Pane::Changes || pane == Pane::Processes || pane == Pane::Outputs,
        a.nav_v(pane, b),
        b.next_v(t, c),
    ensures
        t is Done,
        narrowed(c, v, ids),
{
    lemma_numbers(ids);
    let rest = seq![StepV::Op(Op::Focus(pane))] + a.plan();
    assert(b.plan() =~= seq![StepV::Op(Op::Translate(Domain::Process, v))] + rest);
    lemma_turned(b, t, c, Domain::Process, v, rest, sid, ids);
}

/// From a pipeline, the engine is asked for the targets of it.
pub proof fn law_a_pipeline_leads_to_its_targets(a: App, b: App, t: Turn, c: App, sid: Seq<char>, n: i64)
    requires
        a.ui.focus == Pane::Pipelines,
        at_row(a.lists.pipelines, "id"@, JV::Int(n as int)),
        on_box(a, sid),
        a.nav_v(Pane::BuildEdges, b),
        b.next_v(t, c),
    ensures
        t is Done,
        c.filters == a.filters,
        c.plan().len() > 0,
        c.plan()[0] == mapping(sid, "pipeline"@, seq![n as int], "edge"@, FilterView::BuildEdges),
{
    let rest = seq![StepV::Op(Op::Focus(Pane::BuildEdges))] + a.plan();
    assert(b.plan() =~= seq![StepV::Op(Op::Translate(Domain::Pipeline, FilterView::BuildEdges))] + rest);
    lemma_turned(b, t, c, Domain::Pipeline, FilterView::BuildEdges, rest, sid, seq![n as int]);
}

/// From a change, the engine is asked for the process that wrote it first and for the one that
/// wrote it last; nothing else is known of it.
pub proof fn law_a_change_leads_to_its_writers(a: App, b: App, pane: Pane, v: FilterView, sid: Seq<char>, path: Seq<char>)
    requires
        a.ui.focus == Pane::Changes,
        at_row(a.lists.changes, "path"@, JV::Str(path)),
        on_box(a, sid),
        shows(pane, v),
        pane != Pane::Changes,
        a.nav_v(pane, b),
    ensures
        b.jobs.nav_ids@.len() == 0,
        b.filters == a.filters,
        b.plan() == seq![
            StepV::Call("first_writer_id"@, seq![JV::Str(sid), JV::Str(path)], Then::Writer),
            StepV::Call("writer_id"@, seq![JV::Str(sid), JV::Str(path)], Then::Writer),
            StepV::Op(Op::Translate(Domain::Process, v)),
            StepV::Op(Op::Focus(pane)),
        ] + a.plan(),
{
    assert(ints(b.jobs.nav_ids@).len() == b.jobs.nav_ids@.len());
    assert(b.plan() =~= seq![
        StepV::Call("first_writer_id"@, seq![JV::Str(sid), JV::Str(path)], Then::Writer),
        StepV::Call("writer_id"@, seq![JV::Str(sid), JV::Str(path)], Then::Writer),
        StepV::Op(Op::Translate(Domain::Process, v)),
        StepV::Op(Op::Focus(pane)),
    ] + a.plan());
}

/// A writer that the engine names is one of those that the list is narrowed to, once; an answer
/// that names none adds none.
pub proof fn law_a_writer_counts_once(a: App, b: App, r: Result<Json, String>)
    requires
        a.answer_v(Then::Writer, r, b),
    ensures
        forall|m: i64| a.jobs.nav_ids@.contains(m) ==> #[trigger] b.jobs.nav_ids@.contains(m),
        r matches Ok(j) ==> (j@ matches JV::Int(n) ==> (i64::MIN <= n <= i64::MAX ==> {
            &&& b.jobs.nav_ids@.contains(n as i64)
            &&& forall|m: i64| #[trigger] b.jobs.nav_ids@.contains(m) ==> m == n || a.jobs.nav_ids@.contains(m)
        })),
        r is Err ==> b.jobs.nav_ids@ == a.jobs.nav_ids@,
        a.jobs.nav_ids@.no_duplicates() ==> b.jobs.nav_ids@.no_duplicates(),
        b.plan() == a.plan(),
{
    if let Ok(j) = r {
        if let JV::Int(n) = j@ {
            if i64::MIN <= n <= i64::MAX {
                let v = a.jobs.nav_ids@;
                assert(v.push(n as i64)[v.len() as int] == n as i64);
                assert forall|m: i64| v.contains(m) implies #[trigger] v.push(n as i64).contains(m) by {
                    let k = choose|k: int| 0 <= k < v.len() && v[k] == m;
                    assert(v.push(n as i64)[k] == m);
                }
            }
        }
    }
}

/// The writers that were found narrow the list of the processes, or of what processes are known by,
/// to them; the engine is asked for what belongs to them elsewhere.
pub proof fn law_writers_lead_on(a: App, t: Turn, c: App, v: FilterView, rest: Seq<StepV>, sid: Seq<char>)
    requires
        a.plan() == seq![StepV::Op(Op::Translate(Domain::Process, v))] + rest,
        a.jobs.nav_ids@.len() > 0,
        on_box(a, sid),
        a.next_v(t, c),
    ensures
        v == FilterView::Procs || v == FilterView::Outputs || v == FilterView::Changes ==> narrowed(
            c,
            v,
            ints(a.jobs.nav_ids@),
        ),
        v == FilterView::Pipelines ==> c.plan() == seq![
            mapping(sid, "process"@, ints(a.jobs.nav_ids@), "pipeline"@, v),
        ] + rest,
        v == FilterView::BuildEdges ==> c.plan() == seq![
            mapping(sid, "process"@, ints(a.jobs.nav_ids@), "edge"@, v),
        ] + rest,
{
    lemma_turned(a, t, c, Domain::Process, v, rest, sid, ints(a.jobs.nav_ids@));
}

/// From a variable that a recipe set, the engine is asked for what belongs to that edge; from any
/// other, for what belongs to the pipeline that set it.
pub proof fn law_a_variable_leads_to_where_it_was_set(a: App, b: App, t: Turn, c: App, pane: Pane, v: FilterView, sid: Seq<char>, n: i64)
    requires
        a.ui.focus == Pane::Vars,
        a.side.vars.sel < a.side.vars.rows@.len(),
        on_box(a, sid),
        shows(pane, v),
        a.nav_v(pane, b),
        b.next_v(t, c),
    ensures
        ({
            let r = a.side.vars.rows@[a.side.vars.sel as int]@;
            let edge = r.get("edge_id"@) == Some(JV::Int(n as int));
            let pipe = r.get("edge_id"@) is None && r.get("pipeline_id"@) == Some(JV::Int(n as int));
            let to = if pane == Pane::Pipelines {
                "pipeline"@
            } else if pane == Pane::BuildEdges {
                "edge"@
            } else {
                "process"@
            };
            &&& edge && pane == Pane::BuildEdges ==> narrowed(c, v, seq![n as int])
            &&& edge && pane != Pane::BuildEdges ==> c.plan().len() > 0 && c.plan()[0] == mapping(
                sid,
                "edge"@,
                seq![n as int],
                to,
                v,
            )
            &&& pipe && pane == Pane::Pipelines ==> narrowed(c, v, seq![n as int])
            &&& pipe && pane != Pane::Pipelines ==> c.plan().len() > 0 && c.plan()[0] == mapping(
                sid,
                "pipeline"@,
                seq![n as int],
                to,
                v,
            )
        }),
{
    let r = a.side.vars.rows@[a.side.vars.sel as int]@;
    let rest = seq![StepV::Op(Op::Focus(pane))] + a.plan();
    if r.get("edge_id"@) == Some(JV::Int(n as int)) {
        assert(b.plan() =~= seq![StepV::Op(Op::Translate(Domain::Edge, v))] + rest);
        lemma_turned(b, t, c, Domain::Edge, v, rest, sid, seq![n as int]);
    } else if r.get("edge_id"@) is None && r.get("pipeline_id"@) == Some(JV::Int(n as int)) {
        assert(b.plan() =~= seq![StepV::Op(Op::Translate(Domain::Pipeline, v))] + rest);
        lemma_turned(b, t, c, Domain::Pipeline, v, rest, sid, seq![n as int]);
    }
}

/// What the engine answers to the question what belongs to a row narrows the list that is gone to:
/// to the numbers that it names.
pub proof fn law_the_answer_narrows_the_list(a: App, b: App, v: FilterView, j: Json, ids: Seq<int>)
    requires
        ids.len() > 0,
        forall|i: int| 0 <= i < ids.len() ==> i64::MIN <= #[trigger] ids[i] <= i64::MAX,
        j@ == JV::Arr(ids.map_values(|n: int| JV::Int(n))),
        a.answer_v(Then::Translated(v), Ok(j), b),
    ensures
        narrowed(b, v, ids),
        forall|u: FilterView| u != v ==> b.filter(u) == a.filter(u),
{
    lemma_numbers(ids);
    lemma_narrowed(a, v, ids, b);
}

/// Where nothing belongs to the row, a list that was narrowed for another one is not any more, and
/// a typed filter stays.
pub proof fn law_no_answer_narrows_nothing(a: App, b: App, v: FilterView, r: Result<Json, String>)
    requires
        r matches Ok(j) ==> j@ == JV::Arr(Seq::empty()) || j@ == JV::Null,
        a.answer_v(Then::Translated(v), r, b),
    ensures
        !a.filter(v).generated ==> b == a,
        a.filter(v).generated ==> !b.filter(v).on && !b.filter(v).generated && b.filter(v)@.clauses.len() == 0,
{
}

/// Once the list is narrowed, the pane is shown.
pub proof fn law_the_pane_is_shown_at_last(a: App, t: Turn, c: App, pane: Pane, rest: Seq<StepV>)
    requires
        a.plan() == seq![StepV::Op(Op::Focus(pane))] + rest,
        a.next_v(t, c),
    ensures
        c.ui.focus == pane,
        c.plan() == rest,
        c.filters == a.filters,
        c.lists == a.lists,
{
    let mid = choose|mid: App|
        {
            &&& #[trigger] mid.plan() == a.plan().skip(1)
            &&& mid == (App { todo: mid.todo, ..a })
            &&& t is Done && mid.op_v(Op::Focus(pane), c)
        };
    assert(mid.plan() =~= rest);
    assert(c.plan() == mid.plan());
}

/// From a pane that shows no list, and to one that shows none, the pane is shown at once and no
/// filter changes.
pub proof fn law_other_panes_narrow_nothing(a: App, b: App, pane: Pane)
    requires
        a.ui.focus != Pane::Vars,
        pane == Pane::Sessions || pane == Pane::Rules || pane == Pane::Flows || pane == Pane::ApiLogs || pane
            == Pane::Network || pane == Pane::Help || a.ui.focus == Pane::Sessions || a.ui.focus == Pane::Rules || pane
            == a.ui.focus,
        a.nav_v(pane, b),
    ensures
        b.ui.focus == pane,
        b.filters == a.filters,
        b.plan() == a.plan(),
{
}

} // verus!
