//! Each step of a plan does what it is named for, and each answer goes to what was asked.

use vstd::prelude::*;

#[allow(unused_imports)]
use crate::app::{App, Op, StepV, Then};
#[allow(unused_imports)]
use crate::json::{jvs, Json, JV};
#[allow(unused_imports)]
use crate::lists::rep_v;
#[allow(unused_imports)]
use crate::plan::Turn;
#[allow(unused_imports)]
use crate::types::{ConfirmAction, FilterView, Pane};

verus! {

/// A step that is done here is the one that is named.
pub proof fn law_steps_are_what_they_are_named(a: App, b: App, op: Op)
    requires
        a.op_v(op, b),
    ensures
        op == Op::RefreshSessions ==> a.refresh_sessions_v(b),
        op == Op::LoadChanges ==> a.load_v(FilterView::Changes, b),
        op == Op::LoadRules ==> b.plan() == seq![StepV::ReadRules] + a.plan(),
        op == Op::LoadHunks ==> a.load_hunks_v(b),
        op == Op::RefreshSummary ==> a.recent_v(b),
        op == Op::RefreshPrompt ==> b.plan() == seq![StepV::Call("prompts.peek"@, Seq::empty(), Then::Prompt)] + a.plan(),
        op == Op::ClearMarks ==> b.boxes.marks.keys@.len() == 0,
        op == Op::FinishKill ==> a.finish_confirm_v(ConfirmAction::Kill, b),
        op == Op::FinishDissolve ==> a.finish_confirm_v(ConfirmAction::Dissolve, b),
        op == Op::FinishBatch(true) ==> a.finish_batch_v(true, b),
        op == Op::FinishBatch(false) ==> a.finish_batch_v(false, b),
        op == Op::LoadFlows ==> a.load_flows_v(b),
        op == Op::LoadFlowDetail ==> a.load_flow_detail_v(b),
        op == Op::LoadPacketDetail ==> a.load_packet_detail_v(b),
        op == Op::Restore ==> a.restore_v(b),
        op matches Op::Fetch(v, start) ==> a.fetch_window_v(v, start, b),
        op matches Op::LoadIfNeeded(v) ==> a.load_list_if_needed_v(v, b),
        op matches Op::Visit(p) ==> a.visit_v(p, b),
        op matches Op::Focus(p) ==> b.ui.focus == p && b.todo == a.todo,
        op matches Op::SeekLast(v) ==> (a.win(v).rows@.len() > 0 ==> b.win(v).sel == a.win(v).rows@.len() - 1),
        op matches Op::Repin(v, saved, pin) ==> a.repin_v(v, saved, pin, b),
        op == Op::RepinHunk ==> a.repin_hunk_v(b),
        op == Op::ReopenForHunk ==> a.reopen_for_hunk_v(b),
{
    if let Op::SeekLast(v) = op {
        assert(a.win(v).rows.len() == a.win(v).rows@.len());
    }
}

/// What is said of boxes whose changes were taken says whether they were applied or discarded, and
/// for how many.
pub proof fn law_taking_of_boxes_is_told(a: App, b: App, discard: bool)
    requires
        a.jobs.tally.err == 0,
        a.boxes.marks.keys@.len() == 0,
        a.finish_batch_v(discard, b),
    ensures
        discard ==> b.ui.status@ == "discarded"@ + " all changes in "@ + crate::text::dec(a.jobs.tally.ok as int) + " box(es)"@,
        !discard ==> b.ui.status@ == "applied"@ + " all changes in "@ + crate::text::dec(a.jobs.tally.ok as int) + " box(es)"@,
{
}

/// What is said of changes that were taken counts those that the engine names.
pub proof fn law_taking_of_changes_is_told(a: App, b: App, j: Json, done: Seq<JV>)
    ensures
        j@.get("applied"@) == Some(JV::Arr(done)) && a.answer_v(Then::Review(false), Ok(j), b) ==> b.ui.status@ == "applied"@
            + " "@ + crate::text::dec(done.len() as int) + " change(s)"@ && b.todo == a.todo,
        j@.get("discarded"@) == Some(JV::Arr(done)) && a.answer_v(Then::Review(true), Ok(j), b) ==> b.ui.status@
            == "discarded"@ + " "@ + crate::text::dec(done.len() as int) + " change(s)"@ && b.todo == a.todo,
        j@.get("applied"@) == Some(JV::Arr(done)) && a.answer_v(Then::ReviewAll(false), Ok(j), b) ==> b.ui.status@
            == "applied"@ + " all ("@ + crate::text::dec(done.len() as int) + " change(s))"@,
        j@.get("discarded"@) == Some(JV::Arr(done)) && a.answer_v(Then::ReviewAll(true), Ok(j), b) ==> b.ui.status@
            == "discarded"@ + " all ("@ + crate::text::dec(done.len() as int) + " change(s))"@,
{
}

/// A refused call changes nothing but what is said, and what is said is the engine's error.
pub proof fn law_a_refusal_is_told(a: App, b: App, e: String)
    ensures
        a.answer_v(Then::Review(false), Err(e), b) ==> b.ui.status@ == "apply: "@ + e@ && b.boxes == a.boxes && b.todo
            == a.todo,
        a.answer_v(Then::Review(true), Err(e), b) ==> b.ui.status@ == "discard: "@ + e@ && b.boxes == a.boxes && b.todo
            == a.todo,
        a.answer_v(Then::ReviewAll(false), Err(e), b) ==> b.ui.status@ == "apply_all: "@ + e@,
        a.answer_v(Then::ReviewAll(true), Err(e), b) ==> b.ui.status@ == "discard_all: "@ + e@,
        a.answer_v(Then::Sessions, Err(e), b) ==> b.ui.status@ == "session_dicts: "@ + e@ && b.boxes == a.boxes,
        a.answer_v(Then::RulesReloaded, Err(e), b) ==> b.ui.status@ == "reload_rules: "@ + e@,
        a.answer_v(Then::Window(FilterView::Changes, 0), Err(e), b) ==> b.lists == a.lists && b.ui.status@
            == "view.window changes: "@ + e@,
        a.answer_v(Then::Filtered(FilterView::Procs), Err(e), b) ==> b.lists == a.lists,
        a.answer_v(Then::Summary, Err(e), b) ==> b == a,
        a.answer_v(Then::Prompt, Err(e), b) ==> b.jobs.prompt == a.jobs.prompt,
{
}

/// What the engine tells of a box, of variables, of flows and of packets is what is shown of them.
pub proof fn law_answers_are_kept(a: App, b: App, j: Json, rows: Seq<JV>)
    ensures
        a.answer_v(Then::Summary, Ok(j), b) ==> b.boxes.summary@ == j@,
        j@ == JV::Arr(rows) && a.answer_v(Then::Vars, Ok(j), b) ==> jvs(b.side.vars.rows@) == rows,
        j@ == JV::Arr(rows) && a.answer_v(Then::ApiLog, Ok(j), b) ==> jvs(b.side.api.rows@) == rows,
        j@ == JV::Arr(rows) && a.answer_v(Then::Webcap, Ok(j), b) ==> jvs(b.side.web.rows@) == rows,
        j@.get("ok"@) == Some(JV::Bool(true)) && j@.get("flows"@) == Some(JV::Arr(rows)) && a.answer_v(
            Then::Flows,
            Ok(j),
            b,
        ) ==> jvs(b.side.flows.rows@) == rows,
        j@.get("ok"@) == Some(JV::Bool(true)) && j@.get("packets"@) == Some(JV::Arr(rows)) && a.answer_v(
            Then::Packets(0),
            Ok(j),
            b,
        ) ==> jvs(b.side.packets.rows@) == rows && b.ui.focus == Pane::Packets,
{
}

/// The text of a frame is shown for the flow, or the packet, that it was asked for.
pub proof fn law_frames_are_kept(a: App, b: App, j: Json, text: Seq<char>)
    requires
        j@.get("ok"@) == Some(JV::Bool(true)),
        j@.get("text"@) == Some(JV::Str(text)),
    ensures
        a.answer_v(Then::FlowDetail, Ok(j), b) ==> b.side.flows.detail@ == text && b.side.packets == a.side.packets,
        a.answer_v(Then::PacketDetail, Ok(j), b) ==> b.side.packets.detail@ == text && b.side.flows == a.side.flows,
{
}

/// The text of an output is put behind those that are there, with its number and its stream.
pub proof fn law_outputs_come_in_their_order(a: App, b: App, oid: i64, stream: i64, r: Result<Json, String>)
    requires
        a.answer_v(Then::Output(oid, stream), r, b),
    ensures
        b.shown.output_segs@.len() == a.shown.output_segs@.len() + 1,
        b.shown.output_segs@[a.shown.output_segs@.len() as int].0 == oid,
        b.shown.output_segs@[a.shown.output_segs@.len() as int].1 == stream,
        b.lists == a.lists,
{
    let x = crate::answers::segs_v(a.shown.output_segs@);
    let y = crate::answers::segs_v(b.shown.output_segs@);
    assert(x.len() == a.shown.output_segs@.len());
    assert(y.len() == b.shown.output_segs@.len());
    assert(y[x.len() as int].0 == oid);
}

/// Steps are done in the order of the plan, and a call is handed out as it was planned.
pub proof fn law_the_plan_is_worked_off_in_order(a: App, t: Turn, b: App, s: StepV, rest: Seq<StepV>)
    requires
        a.plan() == seq![s] + rest,
        a.next_v(t, b),
    ensures
        s is Call || s is Rename || s is Shutdown || s is OpenPty || s is WriteRules || s is LoadImage || s is Input ==> (t
            matches Turn::Outside(step) && step@ == s) && b.plan() == rest,
        s matches StepV::Say(text) ==> t is Done && b.ui.status@ == text && b.plan() == rest,
{
    assert(a.plan()[0] == s);
    let mid = choose|mid: App|
        {
            &&& #[trigger] mid.plan() == a.plan().skip(1)
            &&& mid == (App { todo: mid.todo, ..a })
            &&& match a.plan()[0] {
                StepV::Op(op) => t is Done && mid.op_v(op, b),
                StepV::Say(text) => t is Done && mid.says(b, text),
                x => t is Outside && t->0@ == x && b == mid,
            }
        };
    assert(mid.plan() =~= rest);
    if s is Say {
        assert(b.todo == mid.todo);
        assert(b.plan() == mid.plan());
    }
}

/// On a list of the client's own, down and up go by one row, and the detail begins anew.
pub proof fn law_rows_are_gone_through_one_by_one(a: App, b: App, down: bool)
    requires
        !a.ui.right_focused,
        a.move_v(down, b),
    ensures
        a.ui.focus == Pane::Sessions && down && a.boxes.sel + 1 < a.boxes.sessions@.len() ==> b.boxes.sel == a.boxes.sel + 1,
        a.ui.focus == Pane::Sessions && !down && a.boxes.sel > 0 ==> b.boxes.sel == a.boxes.sel - 1,
        a.ui.focus == Pane::Rules && down && a.side.sel_rule + 1 < a.side.rules@.len() ==> b.side.sel_rule
            == a.side.sel_rule + 1,
        a.ui.focus == Pane::Rules && !down && a.side.sel_rule > 0 ==> b.side.sel_rule == a.side.sel_rule - 1,
        a.ui.focus == Pane::Flows && down && a.side.flows.sel + 1 < a.side.flows.rows@.len() ==> b.side.flows.sel
            == a.side.flows.sel + 1 && b.plan() == seq![StepV::Op(Op::LoadFlowDetail)] + a.plan(),
        a.ui.focus == Pane::Packets && down && a.side.packets.sel + 1 < a.side.packets.rows@.len() ==> b.side.packets.sel
            == a.side.packets.sel + 1 && b.plan() == seq![StepV::Op(Op::LoadPacketDetail)] + a.plan(),
        a.ui.focus == Pane::ApiLogs && down && a.side.api.sel + 1 < a.side.api.rows@.len() ==> b.side.api.sel
            == a.side.api.sel + 1,
        a.ui.focus == Pane::Network && down && a.side.web.sel + 1 < a.side.web.rows@.len() ==> b.side.web.sel
            == a.side.web.sel + 1,
        a.ui.focus == Pane::Vars && down && a.side.vars.sel + 1 < a.side.vars.rows@.len() ==> b.side.vars.sel
            == a.side.vars.sel + 1,
        a.ui.focus == Pane::Processes || a.ui.focus == Pane::Outputs || a.ui.focus == Pane::Pipelines || a.ui.focus
            == Pane::BuildEdges ==> b.plan().len() == a.plan().len() + 1 && (b.plan()[0] matches StepV::Op(
            Op::Advance(_, d),
        ) && d == down),
        a.ui.focus == Pane::Changes && down && a.lists.changes.start + a.lists.changes.sel + 1 < a.lists.changes.total
            ==> b.plan() == seq![
            StepV::Op(Op::Advance(FilterView::Changes, true)),
            StepV::Op(Op::LoadHunks),
        ] + a.plan(),
{
    assert(a.boxes.sessions.len() == a.boxes.sessions@.len());
    assert(a.side.rules.len() == a.side.rules@.len());
    assert(a.side.flows.rows.len() == a.side.flows.rows@.len());
    assert(a.side.packets.rows.len() == a.side.packets.rows@.len());
    assert(a.side.api.rows.len() == a.side.api.rows@.len());
    assert(a.side.web.rows.len() == a.side.web.rows@.len());
    assert(a.side.vars.rows.len() == a.side.vars.rows@.len());
}

/// On the diff, down and up go from hunk to hunk.
pub proof fn law_hunks_are_gone_through_one_by_one(a: App, b: App, down: bool)
    requires
        a.ui.focus == Pane::Hunks,
        a.hunk_list().len() > 1,
        down ==> a.diff.sel_hunk + 1 < a.hunk_list().len(),
        !down ==> a.diff.sel_hunk > 0,
        a.hunk_list().len() <= usize::MAX,
        a.move_v(down, b),
    ensures
        down ==> b.diff.sel_hunk == a.diff.sel_hunk + 1,
        !down ==> b.diff.sel_hunk == a.diff.sel_hunk - 1,
        b.diff.hunks == a.diff.hunks,
        b.todo == a.todo,
{
}

} // verus!
