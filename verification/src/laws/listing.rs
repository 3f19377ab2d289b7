//! Selecting, moving about, rules, and the way back.

use vstd::prelude::*;

#[allow(unused_imports)]
use crate::app::{App, Op, StepV, Then};
#[allow(unused_imports)]
use crate::boxes::law_toggling_twice_changes_nothing;
#[allow(unused_imports)]
use crate::json::{jvs, Json, JV};
#[allow(unused_imports)]
use crate::keys::{KeyCode, Mods};
#[allow(unused_imports)]
use crate::laws::going::shows;
#[allow(unused_imports)]
use crate::laws::on_box;
#[allow(unused_imports)]
use crate::lists::{being_built, unfinished};
#[allow(unused_imports)]
use crate::plan::Turn;
#[allow(unused_imports)]
use crate::text::{lines, strs, trimmed};
#[allow(unused_imports)]
use crate::types::{modal_v, snaps, FilterView, ModalV, Pane};
#[allow(unused_imports)]
use crate::verbs::{law_rules_survive_the_file, one_line, rules_text};

verus! {

/// Selecting the change at the cursor adds its path to the selection, or takes it out; no other
/// path comes or goes.
pub proof fn law_one_change_is_selected(a: App, b: App, path: Seq<char>)
    requires
        a.ui.focus == Pane::Changes,
        a.boxes.marks.scope == Some(Pane::Changes),
        strs(a.boxes.marks.keys@).no_duplicates(),
        crate::laws::review::has_column(jvs(a.lists.changes.rows@), "path"@),
        a.lists.changes.sel < a.lists.changes.rows@.len(),
        a.lists.changes.rows@[a.lists.changes.sel as int]@.get("path"@) == Some(JV::Str(path)),
        a.toggle_mark_v(b),
    ensures
        b.boxes.marks.scope == Some(Pane::Changes),
        forall|x: Seq<char>|
            #![trigger strs(b.boxes.marks.keys@).contains(x)]
            x != path ==> (strs(b.boxes.marks.keys@).contains(x) <==> strs(a.boxes.marks.keys@).contains(x)),
        strs(b.boxes.marks.keys@).contains(path) <==> !strs(a.boxes.marks.keys@).contains(path),
        b.lists == a.lists,
        b.todo == a.todo,
{
    crate::laws::review::lemma_column(jvs(a.lists.changes.rows@), "path"@);
    law_toggling_twice_changes_nothing(a.marks_here(), path);
}

/// Selecting the box at the cursor adds it to the selection, or takes it out; no other box comes or
/// goes.
pub proof fn law_one_box_is_selected(a: App, b: App, sid: Seq<char>)
    requires
        a.ui.focus == Pane::Sessions,
        a.boxes.marks.scope == Some(Pane::Sessions),
        strs(a.boxes.marks.keys@).no_duplicates(),
        crate::laws::review::has_column(jvs(a.boxes.sessions@), "session_id"@),
        on_box(a, sid),
        a.toggle_mark_v(b),
    ensures
        b.boxes.marks.scope == Some(Pane::Sessions),
        forall|x: Seq<char>|
            #![trigger strs(b.boxes.marks.keys@).contains(x)]
            x != sid ==> (strs(b.boxes.marks.keys@).contains(x) <==> strs(a.boxes.marks.keys@).contains(x)),
        strs(b.boxes.marks.keys@).contains(sid) <==> !strs(a.boxes.marks.keys@).contains(sid),
        b.boxes.sessions == a.boxes.sessions,
        b.boxes.sel == a.boxes.sel,
        b.todo == a.todo,
{
    crate::laws::review::lemma_column(jvs(a.boxes.sessions@), "session_id"@);
    law_toggling_twice_changes_nothing(a.marks_here(), sid);
}

/// The first row that is selected in a list ends what was selected in another.
pub proof fn law_a_selection_begins_anew(a: App, b: App)
    requires
        a.ui.focus == Pane::Changes || a.ui.focus == Pane::Sessions,
        a.boxes.marks.scope != Some(a.ui.focus),
        a.toggle_mark_v(b),
    ensures
        b.boxes.marks.keys@.len() <= 1,
        b.boxes.marks.scope == Some(a.ui.focus),
{
    assert(strs(b.boxes.marks.keys@).len() == b.boxes.marks.keys@.len());
    assert(!a.marks_here().contains(a.row_keys()[a.cursor_row() as int]));
}

/// A cleared selection holds nothing.
pub proof fn law_a_cleared_selection_is_empty(a: App, b: App)
    requires
        a.clear_marks_v(b),
    ensures
        b.boxes.marks.keys@.len() == 0,
        b.boxes.sessions == a.boxes.sessions,
        b.lists == a.lists,
        b.todo == a.todo,
{
}

/// A new rule is put behind all others, one that was edited in the place of the old one; the file
/// is written with exactly these rules.
pub proof fn law_a_rule_is_kept(a: App, b: App, buf: Seq<char>, editing: Option<usize>)
    requires
        trimmed(buf).len() > 0,
        one_line(trimmed(buf)),
        forall|i: int| 0 <= i < a.side.rules@.len() ==> one_line(#[trigger] strs(a.side.rules@)[i]),
        a.commit_rule_v(buf, editing, b),
    ensures
        editing is None ==> strs(b.side.rules@) == strs(a.side.rules@).push(trimmed(buf)),
        editing matches Some(i) ==> (i < a.side.rules@.len() ==> {
            &&& b.side.rules@.len() == a.side.rules@.len()
            &&& strs(b.side.rules@)[i as int] == trimmed(buf)
            &&& forall|k: int|
                0 <= k < a.side.rules@.len() && k != i ==> #[trigger] strs(b.side.rules@)[k] == strs(a.side.rules@)[k]
        }),
        b.plan().len() == a.plan().len() + 1,
        b.plan()[0] matches StepV::WriteRules(text) && lines(text) == strs(b.side.rules@),
{
    assert(strs(a.side.rules@).len() == a.side.rules@.len());
    assert(strs(b.side.rules@).len() == b.side.rules@.len());
    let rules = strs(b.side.rules@);
    assert forall|i: int| 0 <= i < rules.len() implies one_line(#[trigger] rules[i]) by {
        if i < a.side.rules@.len() {
            assert(one_line(strs(a.side.rules@)[i]));
        }
    }
    law_rules_survive_the_file(rules);
}

/// Only the rule at the cursor is deleted, and the file is written without it.
pub proof fn law_only_the_rule_at_the_cursor_is_deleted(a: App, b: App)
    requires
        a.side.sel_rule < a.side.rules@.len(),
        forall|i: int| 0 <= i < a.side.rules@.len() ==> one_line(#[trigger] strs(a.side.rules@)[i]),
        a.delete_rule_v(b),
    ensures
        b.side.rules@.len() == a.side.rules@.len() - 1,
        forall|k: int| 0 <= k < a.side.sel_rule ==> #[trigger] strs(b.side.rules@)[k] == strs(a.side.rules@)[k],
        forall|k: int|
            a.side.sel_rule <= k < b.side.rules@.len() ==> #[trigger] strs(b.side.rules@)[k] == strs(a.side.rules@)[k + 1],
        b.plan().len() == a.plan().len() + 1,
        b.plan()[0] matches StepV::WriteRules(text) && lines(text) == strs(b.side.rules@),
{
    assert(strs(a.side.rules@).len() == a.side.rules@.len());
    assert(strs(b.side.rules@).len() == b.side.rules@.len());
    let rules = strs(b.side.rules@);
    assert forall|i: int| 0 <= i < rules.len() implies one_line(#[trigger] rules[i]) by {
        if i < a.side.sel_rule {
            assert(one_line(strs(a.side.rules@)[i]));
        } else {
            assert(one_line(strs(a.side.rules@)[i + 1]));
        }
    }
    law_rules_survive_the_file(rules);
}

/// A rule that is moved changes places with the one above or below it.
pub proof fn law_a_rule_changes_places(a: App, b: App, down: bool)
    requires
        down ==> a.side.sel_rule + 1 < a.side.rules@.len(),
        !down ==> 0 < a.side.sel_rule < a.side.rules@.len(),
        a.move_rule_v(down, b),
    ensures
        ({
            let i = a.side.sel_rule as int;
            let j = if down { i + 1 } else { i - 1 };
            &&& b.side.sel_rule == j
            &&& b.side.rules@.len() == a.side.rules@.len()
            &&& strs(b.side.rules@)[j] == strs(a.side.rules@)[i]
            &&& strs(b.side.rules@)[i] == strs(a.side.rules@)[j]
            &&& forall|k: int|
                0 <= k < a.side.rules@.len() && k != i && k != j ==> #[trigger] strs(b.side.rules@)[k] == strs(
                    a.side.rules@,
                )[k]
        }),
        b.plan().len() == a.plan().len() + 1,
        b.plan()[0] == StepV::WriteRules(rules_text(strs(b.side.rules@))),
{
    assert(strs(a.side.rules@).len() == a.side.rules@.len());
    assert(strs(b.side.rules@).len() == b.side.rules@.len());
    assert(a.side.rules.len() == a.side.rules@.len());
}

/// Down goes to the next row and up to the one before, where there is one in the window.
pub proof fn law_the_cursor_goes_row_by_row(a: App, b: App, v: FilterView, down: bool)
    requires
        v == FilterView::Outputs || v == FilterView::Pipelines || v == FilterView::BuildEdges,
        a.win(v).start + a.win(v).rows@.len() <= a.win(v).total,
        down ==> a.win(v).sel + 1 < a.win(v).rows@.len(),
        !down ==> 0 < a.win(v).sel < a.win(v).rows@.len(),
        a.op_v(Op::Advance(v, down), b),
    ensures
        down ==> b.win(v).sel == a.win(v).sel + 1,
        !down ==> b.win(v).sel == a.win(v).sel - 1,
        b.win(v).rows == a.win(v).rows,
        b.todo == a.todo,
{
    assert(a.win(v).rows.len() == a.win(v).rows@.len());
}

/// Home and End go to the first and the last row of the whole list.
pub proof fn law_home_and_end(a: App, b: App, v: FilterView, end: bool)
    requires
        shows(a.ui.focus, v),
        !a.ui.right_focused,
        a.win(v).total > 0,
        a.extreme_v(end, b),
    ensures
        b.plan().len() >= a.plan().len() + 2,
        b.plan()[0] matches StepV::Op(Op::Fetch(u, _)) && u == v,
        end ==> b.plan()[1] == StepV::Op(Op::Place(v, (a.win(v).total - 1) as usize)),
        !end ==> b.plan()[1] == StepV::Op(Op::Place(v, 0)),
{
}

/// A place of the whole list is a row of the window that begins before it.
pub proof fn law_a_place_is_found_in_the_window(a: App, b: App, v: FilterView, pos: usize)
    requires
        a.win(v).start <= pos,
        a.op_v(Op::Place(v, pos), b),
    ensures
        b.win(v).start + b.win(v).sel == pos,
        b.win(v).rows == a.win(v).rows,
{
}

/// A page is twenty rows.
pub proof fn law_a_page_is_twenty_rows(a: App, b: App, down: bool)
    requires
        a.ui.focus == Pane::Processes || a.ui.focus == Pane::Outputs || a.ui.focus == Pane::Pipelines || a.ui.focus
            == Pane::BuildEdges,
        !a.ui.right_focused,
        a.page_v(down, b),
    ensures
        b.plan().len() == a.plan().len() + 20,
        forall|i: int| 0 <= i < 20 ==> (#[trigger] b.plan()[i] matches StepV::Op(Op::Advance(_, d)) && d == down),
{
}

proof fn lemma_unfinished(rows: Seq<JV>)
    ensures
        unfinished(rows) == rows.filter(|r: JV| r.num_at("done_ts"@).size == 0),
    decreases rows.len(),
{
    reveal(Seq::filter);
    if rows.len() > 0 {
        lemma_unfinished(rows.drop_last());
    } else {
        assert(unfinished(rows) =~= rows.filter(|r: JV| r.num_at("done_ts"@).size == 0));
    }
}

/// Where only running pipelines are wanted, those are shown that have not ended; else all are, in
/// the order in which they began where no tree is wanted.
pub proof fn law_running_pipelines_are_shown(a: App)
    requires
        !a.shown.pipe_tree,
    ensures
        a.shown.pipe_running_only ==> a.shown_pipelines() == jvs(a.shown.pipelines_flat@).filter(
            |r: JV| r.num_at("done_ts"@).size == 0,
        ),
        !a.shown.pipe_running_only ==> a.shown_pipelines() == jvs(a.shown.pipelines_flat@),
{
    lemma_unfinished(jvs(a.shown.pipelines_flat@));
}

proof fn lemma_being_built(rows: Seq<JV>)
    ensures
        being_built(rows) == rows.filter(
            |r: JV|
                !r.num_at("started_ts"@).neg && r.num_at("started_ts"@).size > 0 && r.num_at("ended_ts"@).size == 0,
        ),
    decreases rows.len(),
{
    reveal(Seq::filter);
    let f = |r: JV| !r.num_at("started_ts"@).neg && r.num_at("started_ts"@).size > 0 && r.num_at("ended_ts"@).size == 0;
    if rows.len() > 0 {
        lemma_being_built(rows.drop_last());
        assert(f(rows.last()) == crate::fmt::building(rows.last()));
    } else {
        assert(being_built(rows) =~= rows.filter(f));
    }
}

/// Where only running targets are wanted and the box runs, those are shown that were begun and have
/// not ended; else all are.
pub proof fn law_running_targets_are_shown(a: App)
    ensures
        a.shown.edges_running_only && a.boxes.sel < a.boxes.sessions@.len() && a.boxes.sessions@[a.boxes.sel as int]@.get(
            "status"@,
        ) == Some(JV::Str("running"@)) ==> a.shown_edges() == jvs(a.shown.edges_flat@).filter(
            |r: JV|
                !r.num_at("started_ts"@).neg && r.num_at("started_ts"@).size > 0 && r.num_at("ended_ts"@).size == 0,
        ),
        !a.shown.edges_running_only ==> a.shown_edges() == jvs(a.shown.edges_flat@),
{
    lemma_being_built(jvs(a.shown.edges_flat@));
}

/// Each switch is turned and turned back.
pub proof fn law_switches_are_turned(a: App, b: App)
    ensures
        a.toggle_pipeline_tree_v(b) ==> b.shown.pipe_tree == !a.shown.pipe_tree,
        a.toggle_pipeline_running_only_v(b) ==> b.shown.pipe_running_only == !a.shown.pipe_running_only,
        a.toggle_edge_running_only_v(b) ==> b.shown.edges_running_only == !a.shown.edges_running_only,
        a.ui.focus == Pane::Outputs && a.toggle_err_only_v(b) ==> b.shown.err_only == !a.shown.err_only,
{
}

/// What was shown when a pane was gone to comes back with its pane, its filter and its place.
pub proof fn law_what_was_shown_is_remembered(a: App, b: App, v: FilterView)
    requires
        shows(a.ui.focus, v),
        a.ui.nav_history@.len() < 32,
        a.push_history_v(b),
    ensures
        snaps(b.ui.nav_history@).len() == a.ui.nav_history@.len() + 1,
        snaps(b.ui.nav_history@).last().pane == a.ui.focus,
        snaps(b.ui.nav_history@).last().filter == Some(a.filter(v)@),
        a.win(v).start + a.win(v).sel <= usize::MAX ==> snaps(b.ui.nav_history@).last().cursor == a.win(v).start + a.win(
            v,
        ).sel,
        forall|i: int|
            0 <= i < a.ui.nav_history@.len() ==> #[trigger] snaps(b.ui.nav_history@)[i] == snaps(a.ui.nav_history@)[i],
{
    assert(snaps(a.ui.nav_history@).len() == a.ui.nav_history@.len());
}

/// The cursor of the boxes, put on another box, asks for what is known of that box, and forgets
/// what was known of the one before.
pub proof fn law_another_box_is_asked_about(a: App, b: App, sid: Seq<char>)
    requires
        on_box(a, sid),
        a.box_moved_v(b),
    ensures
        b.boxes.summary@ == JV::Null,
        b.plan() == seq![
            StepV::Call("review.box_summary"@, seq![JV::Str(sid), JV::Int(40)], Then::Summary),
        ] + a.plan(),
        b.lists.changes.sid is None && b.lists.processes.sid is None && b.lists.outputs.sid is None,
        b.lists.pipelines.sid is None && b.lists.edges.sid is None,
{
}

} // verus!
