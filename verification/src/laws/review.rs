//! Applying and discarding changes, and killing and deleting boxes.

use vstd::prelude::*;

#[allow(unused_imports)]
use crate::app::{App, Op, StepV, Then};
#[allow(unused_imports)]
use crate::boxes::{chosen, keys_of};
#[allow(unused_imports)]
use crate::diff::hunk_numbers;
#[allow(unused_imports)]
use crate::json::{jvs, JV};
#[allow(unused_imports)]
use crate::laws::{at_row, on_box, on_no_box, only_plans, verb_of};
#[allow(unused_imports)]
use crate::text::strs;
#[allow(unused_imports)]
use crate::types::{ConfirmAction, Pane};

verus! {

/// The text under a key of every row.
pub open spec fn column(rows: Seq<JV>, k: Seq<char>) -> Seq<Seq<char>> {
    rows.map_values(|r: JV| r.get(k)->0->Str_0)
}

/// Every row has a text under a key.
pub open spec fn has_column(rows: Seq<JV>, k: Seq<char>) -> bool {
    forall|i: int| 0 <= i < rows.len() ==> (#[trigger] rows[i]).get(k) matches Some(JV::Str(_))
}

pub proof fn lemma_column(rows: Seq<JV>, k: Seq<char>)
    requires
        has_column(rows, k),
    ensures
        keys_of(rows, k) == column(rows, k),
    decreases rows.len(),
{
    if rows.len() > 0 {
        let front = rows.drop_last();
        assert forall|i: int| 0 <= i < front.len() implies (#[trigger] front[i]).get(k) matches Some(JV::Str(_)) by {
            assert(front[i] == rows[i]);
        }
        lemma_column(front, k);
        assert(rows[rows.len() - 1].get(k) matches Some(JV::Str(_)));
        assert(keys_of(rows, k) =~= column(rows, k));
    } else {
        assert(keys_of(rows, k) =~= column(rows, k));
    }
}

proof fn lemma_chosen(keys: Seq<Seq<char>>, marks: Seq<Seq<char>>)
    ensures
        chosen(keys, marks) == keys.filter(|k: Seq<char>| marks.contains(k)),
    decreases keys.len(),
{
    reveal(Seq::filter);
    if keys.len() > 0 {
        lemma_chosen(keys.drop_last(), marks);
    } else {
        assert(chosen(keys, marks) =~= keys.filter(|k: Seq<char>| marks.contains(k)));
    }
}

/// The selected changes: the paths of the rows of the list, in their order, that were selected in
/// it. A selection in the list of the boxes is none of the changes.
pub proof fn law_selected_changes(a: App)
    requires
        a.ui.focus == Pane::Changes,
        has_column(jvs(a.lists.changes.rows@), "path"@),
    ensures
        a.boxes.marks.scope == Some(Pane::Changes) ==> a.marked() == column(
            jvs(a.lists.changes.rows@),
            "path"@,
        ).filter(|k: Seq<char>| strs(a.boxes.marks.keys@).contains(k)),
        a.boxes.marks.scope != Some(Pane::Changes) ==> a.marked().len() == 0,
{
    lemma_column(jvs(a.lists.changes.rows@), "path"@);
    lemma_chosen(a.row_keys(), a.marks_here());
    if a.boxes.marks.scope != Some(Pane::Changes) {
        lemma_none_chosen(a.row_keys());
    }
}

/// The selected boxes: the numbers of the rows of the list, in their order, that were selected in
/// it. A selection in the list of the changes is none of the boxes.
pub proof fn law_selected_boxes(a: App)
    requires
        a.ui.focus == Pane::Sessions,
        has_column(jvs(a.boxes.sessions@), "session_id"@),
    ensures
        a.boxes.marks.scope == Some(Pane::Sessions) ==> a.marked() == column(
            jvs(a.boxes.sessions@),
            "session_id"@,
        ).filter(|k: Seq<char>| strs(a.boxes.marks.keys@).contains(k)),
        a.boxes.marks.scope != Some(Pane::Sessions) ==> a.marked().len() == 0,
{
    lemma_column(jvs(a.boxes.sessions@), "session_id"@);
    lemma_chosen(a.row_keys(), a.marks_here());
    if a.boxes.marks.scope != Some(Pane::Sessions) {
        lemma_none_chosen(a.row_keys());
    }
}

/// On any other pane nothing is selected.
pub proof fn law_nothing_is_selected_elsewhere(a: App)
    requires
        a.ui.focus != Pane::Sessions,
        a.ui.focus != Pane::Changes,
    ensures
        a.marked().len() == 0,
{
}

proof fn lemma_none_chosen(keys: Seq<Seq<char>>)
    ensures
        chosen(keys, Seq::empty()).len() == 0,
    decreases keys.len(),
{
    if keys.len() > 0 {
        lemma_none_chosen(keys.drop_last());
    }
}

/// Applying selected changes asks the engine to apply exactly these, in one call, and discarding
/// them to discard exactly these.
pub proof fn law_only_selected_changes_are_taken(a: App, b: App, discard: bool, sid: Seq<char>)
    requires
        a.ui.focus == Pane::Changes,
        on_box(a, sid),
        a.marked().len() > 0,
        a.review_v(discard, b),
    ensures
        b.plan().len() > a.plan().len(),
        b.plan()[0] matches StepV::Call(verb, args, _) && {
            &&& discard ==> verb == "review.discard"@
            &&& !discard ==> verb == "review.apply"@
            &&& args.len() == 2
            &&& args[0] == JV::Str(sid)
            &&& args[1] matches JV::Arr(paths) && {
                &&& paths.len() == a.marked().len()
                &&& forall|i: int| 0 <= i < paths.len() ==> #[trigger] paths[i] == JV::Str(a.marked()[i])
            }
        },
        forall|i: int|
            1 <= i < b.plan().len() - a.plan().len() ==> !((#[trigger] b.plan()[i]) is Call),
        b.plan().skip(b.plan().len() - a.plan().len()) == a.plan(),
        b.lists == a.lists,
        b.boxes == a.boxes,
{
    let n = b.plan().len() - a.plan().len();
    assert(b.plan().skip(n) =~= a.plan());
}

/// What came of the selected changes, and then the selection is dropped and the lists are loaded
/// again.
pub proof fn law_a_taken_selection_ends(a: App, b: App, discard: bool, sid: Seq<char>)
    requires
        a.ui.focus == Pane::Changes,
        on_box(a, sid),
        a.marked().len() > 0,
        a.review_v(discard, b),
    ensures
        b.plan()[0]->Call_2 == Then::ReviewMarked(discard, a.marked().len() as usize),
        b.plan().skip(1) == seq![
            StepV::Op(Op::ClearMarks),
            StepV::Op(Op::RefreshSessions),
            StepV::Op(Op::LoadChanges),
        ] + a.plan(),
{
    assert(b.plan().skip(1) =~= seq![
        StepV::Op(Op::ClearMarks),
        StepV::Op(Op::RefreshSessions),
        StepV::Op(Op::LoadChanges),
    ] + a.plan());
}

/// Applying selected boxes asks the engine to apply all changes of each of them and of no other
/// box, and discarding them to discard these.
pub proof fn law_only_selected_boxes_are_taken(a: App, b: App, discard: bool)
    requires
        a.ui.focus == Pane::Sessions,
        a.marked().len() > 0,
        a.review_v(discard, b),
    ensures
        b.plan().len() >= a.plan().len() + a.marked().len(),
        forall|i: int|
            0 <= i < a.marked().len() ==> (#[trigger] b.plan()[i] matches StepV::Call(verb, args, then) && {
                &&& discard ==> verb == "review.discard"@
                &&& !discard ==> verb == "review.apply"@
                &&& args == seq![JV::Str(a.marked()[i]), JV::Null]
                &&& then == Then::ReviewBox
            }),
        b.plan().skip(a.marked().len() as int) == seq![
            StepV::Op(Op::FinishBatch(discard)),
            StepV::Op(Op::RefreshSessions),
            StepV::Op(Op::LoadChanges),
        ] + a.plan(),
        b.jobs.tally.ok == 0 && b.jobs.tally.err == 0,
        forall|i: int|
            a.marked().len() <= i < b.plan().len() - a.plan().len() ==> !((#[trigger] b.plan()[i]) is Call),
{
    assert(b.plan().skip(a.marked().len() as int) =~= seq![
        StepV::Op(Op::FinishBatch(discard)),
        StepV::Op(Op::RefreshSessions),
        StepV::Op(Op::LoadChanges),
    ] + a.plan());
}

/// With nothing selected, the change at the cursor is applied or discarded, and no other.
pub proof fn law_the_change_at_the_cursor_is_taken(a: App, b: App, discard: bool, sid: Seq<char>, path: Seq<char>)
    requires
        a.ui.focus == Pane::Changes,
        on_box(a, sid),
        at_row(a.lists.changes, "path"@, JV::Str(path)),
        a.marked().len() == 0,
        a.review_v(discard, b),
    ensures
        only_plans(a, b),
        b.plan() == seq![
            StepV::Call(
                if discard { "review.discard"@ } else { "review.apply"@ },
                seq![JV::Str(sid), JV::Arr(seq![JV::Str(path)])],
                Then::Review(discard),
            ),
            StepV::Op(Op::RefreshSessions),
            StepV::Op(Op::LoadChanges),
        ] + a.plan(),
{
}

/// On the list of the boxes with nothing selected, all changes of the box at the cursor are applied
/// or discarded.
pub proof fn law_the_box_at_the_cursor_is_taken(a: App, b: App, discard: bool, sid: Seq<char>)
    requires
        a.ui.focus == Pane::Sessions,
        on_box(a, sid),
        a.marked().len() == 0,
        a.review_v(discard, b),
    ensures
        only_plans(a, b),
        b.plan() == seq![
            StepV::Call(
                if discard { "review.discard"@ } else { "review.apply"@ },
                seq![JV::Str(sid), JV::Null],
                Then::Review(discard),
            ),
            StepV::Op(Op::RefreshSessions),
            StepV::Op(Op::LoadChanges),
        ] + a.plan(),
{
}

/// Where there is no box, nothing is applied and nothing discarded.
pub proof fn law_nothing_is_taken_without_a_box(a: App, b: App, discard: bool)
    requires
        on_no_box(a),
        a.ui.focus != Pane::Sessions,
        a.review_v(discard, b),
    ensures
        b.plan() == a.plan(),
        a.all_steps(discard).len() == 0,
{
    assert(b.plan() =~= a.plan());
}

/// Applying or discarding all changes is one call for the box at the cursor, without a list of
/// paths.
pub proof fn law_all_changes_are_taken(a: App, sid: Seq<char>)
    requires
        on_box(a, sid),
    ensures
        a.all_steps(false) == seq![
            StepV::Call("review.apply"@, seq![JV::Str(sid), JV::Null], Then::ReviewAll(false)),
            StepV::Op(Op::RefreshSessions),
            StepV::Op(Op::LoadChanges),
        ],
        a.all_steps(true) == seq![
            StepV::Call("review.discard"@, seq![JV::Str(sid), JV::Null], Then::ReviewAll(true)),
            StepV::Op(Op::RefreshSessions),
            StepV::Op(Op::LoadChanges),
        ],
{
}

/// Every hunk of a diff has a number.
pub open spec fn numbered(hunks: Seq<JV>) -> bool {
    forall|i: int| 0 <= i < hunks.len() ==> (#[trigger] hunks[i]).get_i64("index"@) is Some
}

proof fn lemma_numbered(hunks: Seq<JV>)
    requires
        numbered(hunks),
    ensures
        hunk_numbers(hunks) == hunks.map_values(|h: JV| h.get_i64("index"@)->0),
    decreases hunks.len(),
{
    if hunks.len() > 0 {
        let front = hunks.drop_last();
        assert forall|i: int| 0 <= i < front.len() implies (#[trigger] front[i]).get_i64("index"@) is Some by {
            assert(front[i] == hunks[i]);
        }
        lemma_numbered(front);
        assert(hunks[hunks.len() - 1].get_i64("index"@) is Some);
    }
    assert(hunk_numbers(hunks) =~= hunks.map_values(|h: JV| h.get_i64("index"@)->0));
}

/// The cursor of the diff is on the hunk of that number.
pub open spec fn at_hunk(a: App, n: int) -> bool {
    &&& a.diff.hunks@.get("hunks"@) matches Some(JV::Arr(hunks)) && {
        &&& numbered(hunks)
        &&& a.diff.sel_hunk < hunks.len()
        &&& hunks[a.diff.sel_hunk as int].get("index"@) == Some(JV::Int(n))
    }
}

/// Discarding the hunk at the cursor asks the engine to discard that hunk of that change, and
/// nothing else.
pub proof fn law_a_hunk_is_discarded(a: App, b: App, sid: Seq<char>, path: Seq<char>, n: int)
    requires
        on_box(a, sid),
        at_row(a.lists.changes, "path"@, JV::Str(path)),
        at_hunk(a, n),
        a.take_hunk_v(true, b),
    ensures
        only_plans(a, b),
        b.plan() == seq![
            StepV::Call(
                "review.discard_hunk"@,
                seq![JV::Str(sid), JV::Str(path), JV::Int(n)],
                Then::Hunk(n as i64, true),
            ),
        ] + a.plan(),
        verb_of(b.plan()[0]) != "review.apply_hunk"@,
        verb_of(b.plan()[0]) != "review.apply"@,
{
    lemma_numbered(a.diff.hunks@.items("hunks"@));
    reveal_strlit("review.discard_hunk");
    assert("review.discard_hunk"@.len() == 19);
    reveal_strlit("review.apply_hunk");
    assert("review.apply_hunk"@.len() == 17);
    reveal_strlit("review.apply");
    assert("review.apply"@.len() == 12);
}

/// Applying the hunk at the cursor asks the engine to apply that hunk of that change, and nothing
/// else.
pub proof fn law_a_hunk_is_applied(a: App, b: App, sid: Seq<char>, path: Seq<char>, n: int)
    requires
        on_box(a, sid),
        at_row(a.lists.changes, "path"@, JV::Str(path)),
        at_hunk(a, n),
        a.take_hunk_v(false, b),
    ensures
        only_plans(a, b),
        b.plan() == seq![
            StepV::Call(
                "review.apply_hunk"@,
                seq![JV::Str(sid), JV::Str(path), JV::Int(n)],
                Then::Hunk(n as i64, false),
            ),
        ] + a.plan(),
        verb_of(b.plan()[0]) != "review.discard_hunk"@,
{
    lemma_numbered(a.diff.hunks@.items("hunks"@));
    reveal_strlit("review.discard_hunk");
    assert("review.discard_hunk"@.len() == 19);
    reveal_strlit("review.apply_hunk");
    assert("review.apply_hunk"@.len() == 17);
}

/// Where the diff has no hunk at the cursor, nothing is asked of the engine.
pub proof fn law_no_hunk_no_call(a: App, b: App, discard: bool)
    requires
        a.diff.hunks@.get("hunks"@) is None || a.lists.changes.sel >= a.lists.changes.rows@.len() || on_no_box(a),
        a.take_hunk_v(discard, b),
    ensures
        b.plan() == a.plan(),
        b.ui.status@ == "no hunk under cursor"@,
{
}

/// What is said of a hunk follows from what was asked for and from what came of it.
pub proof fn law_the_outcome_of_a_hunk_is_told(a: App, b: App, n: i64, discard: bool, r: Result<JV, Seq<char>>)
    requires
        a.hunk_reply_v(n, discard, r, b),
    ensures
        r matches Ok(j) && j.get("ok"@) == Some(JV::Bool(true)) && discard ==> b.ui.status@ == "discarded hunk "@
            + crate::text::sdec(n as int),
        r matches Ok(j) && j.get("ok"@) == Some(JV::Bool(true)) && !discard ==> b.ui.status@ == "applied hunk "@
            + crate::text::sdec(n as int),
        r matches Err(e) ==> b.ui.status@ == (if discard { "discard_hunk: "@ } else { "apply_hunk: "@ }) + e,
        b.lists.changes.rows == a.lists.changes.rows,
        b.lists.changes.view is None,
        b.plan()[0] == StepV::Op(Op::RefreshSessions),
{
}

/// The boxes that a confirmed action is for: the selected ones of the list of the boxes, or else
/// the one at the cursor.
pub proof fn law_confirmed_boxes(a: App, sid: Seq<char>)
    ensures
        a.ui.focus == Pane::Sessions && a.marked().len() > 0 ==> a.targets() == a.marked(),
        on_box(a, sid) && (a.ui.focus != Pane::Sessions || a.marked().len() == 0) ==> a.targets() == seq![sid],
        on_no_box(a) && (a.ui.focus != Pane::Sessions || a.marked().len() == 0) ==> a.targets().len() == 0,
{
}

/// A confirmed kill asks the engine to kill each of the boxes, the last one first, and to delete
/// none.
pub proof fn law_a_kill_only_kills(a: App, b: App)
    requires
        a.confirm_v(ConfirmAction::Kill, b),
    ensures
        b.plan().len() >= a.plan().len() + a.targets().len(),
        forall|i: int|
            0 <= i < a.targets().len() ==> (#[trigger] b.plan()[i] matches StepV::Call(verb, args, then) && {
                &&& verb == "kill"@
                &&& then == Then::BoxOp
                &&& args == seq![JV::Str(a.targets()[a.targets().len() - 1 - i])]
            }),
        forall|i: int|
            a.targets().len() <= i < b.plan().len() - a.plan().len() ==> !((#[trigger] b.plan()[i]) is Call),
        forall|i: int|
            0 <= i < b.plan().len() - a.plan().len() ==> verb_of(#[trigger] b.plan()[i]) != "dissolve"@ && verb_of(
                b.plan()[i],
            ) != "review.discard"@,
        b.plan().skip(a.targets().len() as int) == seq![StepV::Op(Op::FinishKill), StepV::Op(Op::RefreshSessions)]
            + a.plan(),
        b.jobs.tally.ok == 0 && b.jobs.tally.err == 0,
        b.boxes == a.boxes,
{
    assert(b.plan().skip(a.targets().len() as int) =~= seq![StepV::Op(Op::FinishKill), StepV::Op(Op::RefreshSessions)]
        + a.plan());
    reveal_strlit("kill");
    assert("kill"@.len() == 4);
    reveal_strlit("dissolve");
    assert("dissolve"@.len() == 8);
    reveal_strlit("review.discard");
    assert("review.discard"@.len() == 14);
}

/// A confirmed deletion asks the engine to dissolve each of the boxes, the last one first, and to
/// kill none.
pub proof fn law_a_deletion_only_deletes(a: App, b: App)
    requires
        a.confirm_v(ConfirmAction::Dissolve, b),
    ensures
        b.plan().len() >= a.plan().len() + a.targets().len(),
        forall|i: int|
            0 <= i < a.targets().len() ==> (#[trigger] b.plan()[i] matches StepV::Call(verb, args, then) && {
                &&& verb == "dissolve"@
                &&& then == Then::BoxOp
                &&& args == seq![JV::Str(a.targets()[a.targets().len() - 1 - i])]
            }),
        forall|i: int|
            a.targets().len() <= i < b.plan().len() - a.plan().len() ==> !((#[trigger] b.plan()[i]) is Call),
        forall|i: int| 0 <= i < b.plan().len() - a.plan().len() ==> verb_of(#[trigger] b.plan()[i]) != "kill"@,
        b.plan().skip(a.targets().len() as int) == seq![
            StepV::Op(Op::FinishDissolve),
            StepV::Op(Op::RefreshSessions),
            StepV::Op(Op::LoadChanges),
        ] + a.plan(),
        b.jobs.tally.ok == 0 && b.jobs.tally.err == 0,
        b.boxes == a.boxes,
{
    assert(b.plan().skip(a.targets().len() as int) =~= seq![
        StepV::Op(Op::FinishDissolve),
        StepV::Op(Op::RefreshSessions),
        StepV::Op(Op::LoadChanges),
    ] + a.plan());
    reveal_strlit("kill");
    assert("kill"@.len() == 4);
    reveal_strlit("dissolve");
    assert("dissolve"@.len() == 8);
}

/// What is said of boxes that were killed or deleted counts those for which the engine said yes.
pub proof fn law_killing_and_deleting_are_told_apart(a: App, b: App)
    requires
        a.jobs.tally.err == 0,
    ensures
        a.finish_confirm_v(ConfirmAction::Kill, b) ==> b.ui.status@ == "sent SIGTERM to "@ + crate::text::dec(
            a.jobs.tally.ok as int,
        ) + " box(es)"@,
        a.finish_confirm_v(ConfirmAction::Dissolve, b) ==> b.ui.status@ == "dissolved "@ + crate::text::dec(
            a.jobs.tally.ok as int,
        ) + " box(es)"@,
{
}

/// A new name goes to the box at the cursor, as it was typed.
pub proof fn law_a_box_gets_the_typed_name(a: App, b: App, sid: Seq<char>, name: String)
    requires
        on_box(a, sid),
        a.ui.renaming == Some(name),
        a.commit_rename_v(b),
    ensures
        b.ui.renaming is None,
        b.plan() == seq![StepV::Rename(sid, name@), StepV::Op(Op::RefreshSessions)] + a.plan(),
{
}

/// A box that a call was made for counts as done where the engine said yes, else as failed.
pub proof fn law_every_outcome_counts_once(a: App, b: App, r: Result<crate::json::Json, String>)
    requires
        a.tally_reply_v(r, b),
        a.jobs.tally.ok < usize::MAX,
        a.jobs.tally.err < usize::MAX,
    ensures
        b.jobs.tally.ok + b.jobs.tally.err == a.jobs.tally.ok + a.jobs.tally.err + 1,
        r is Ok <==> b.jobs.tally.ok == a.jobs.tally.ok + 1,
        b.plan() == a.plan(),
{
}

} // verus!
