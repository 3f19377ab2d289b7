//! What the keys are for.

use vstd::prelude::*;

#[allow(unused_imports)]
use crate::app::{App, Op, StepV, Then};
#[allow(unused_imports)]
use crate::json::JV;
#[allow(unused_imports)]
use crate::keys::{action_from, action_of, action_table, pane_from, pane_of_key, pane_table, KeyCode, Mods, PaneAction};
#[allow(unused_imports)]
use crate::laws::{list_has_keys, on_box, only_plans};
#[allow(unused_imports)]
use crate::types::{modal_v, ConfirmAction, FilterView, ModalV, Pane};

verus! {

/// The pane that a letter goes to.
pub open spec fn letter_of(p: Pane) -> Option<char> {
    match p {
        Pane::Sessions => Some('b'),
        Pane::Changes => Some('c'),
        Pane::Processes => Some('p'),
        Pane::Outputs => Some('o'),
        Pane::Pipelines => Some('l'),
        Pane::BuildEdges => Some('g'),
        Pane::Flows => Some('f'),
        Pane::Rules => Some('e'),
        Pane::Pty => Some('P'),
        Pane::ApiLogs => Some('i'),
        Pane::Network => Some('w'),
        Pane::Vars => Some('v'),
        Pane::Help => Some('?'),
        Pane::Hunks | Pane::Packets => None,
    }
}

proof fn lemma_panes(k: char)
    ensures
        pane_of_key(k) matches Some(p) ==> letter_of(p) == Some(k),
        pane_of_key(k) is Some <==> (k == 'b' || k == 'c' || k == 'p' || k == 'o' || k == 'l' || k == 'g' || k == 'f' || k
            == 'e' || k == 'P' || k == 'i' || k == 'w' || k == 'v' || k == '?'),
{
    reveal_with_fuel(pane_from, 15);
    let t = pane_table();
    assert(t.len() == 13);
}

#[verifier::rlimit(50)]
proof fn lemma_actions(focus: Pane)
    ensures
        action_of(KeyCode::Char('q'), focus) == Some(PaneAction::Quit),
        action_of(KeyCode::Char('j'), focus) == Some(PaneAction::MoveDown),
        action_of(KeyCode::Char('k'), focus) == Some(PaneAction::MoveUp),
        action_of(KeyCode::Tab, focus) == Some(PaneAction::NextPane),
        action_of(KeyCode::Enter, focus) == Some(PaneAction::Open),
        action_of(KeyCode::Char('m'), focus) == Some(PaneAction::ActionMenu),
        action_of(KeyCode::Char(' '), focus) == Some(PaneAction::ToggleMark),
        action_of(KeyCode::Char('['), focus) == Some(PaneAction::RangeMark),
        action_of(KeyCode::Char(']'), focus) == Some(PaneAction::RangeMark),
{
    reveal_with_fuel(action_from, 13);
    assert(action_table().len() == 28);
}

#[verifier::rlimit(50)]
proof fn lemma_taking_actions(focus: Pane)
    ensures
        action_of(KeyCode::Char('a'), focus) == Some(
            if focus == Pane::Hunks { PaneAction::ApplyHunk } else { PaneAction::ApplyFile },
        ),
        action_of(KeyCode::Char('x'), focus) == Some(
            if focus == Pane::Hunks { PaneAction::DiscardHunk } else { PaneAction::DiscardFile },
        ),
        action_of(KeyCode::Char('A'), focus) == Some(PaneAction::ApplyAll),
        action_of(KeyCode::Char('X'), focus) == Some(PaneAction::DiscardAll),
        action_of(KeyCode::Char('K'), focus) == Some(PaneAction::ConfirmKill),
        action_of(KeyCode::Char('D'), focus) == Some(PaneAction::ConfirmDissolve),
{
    reveal_with_fuel(action_from, 19);
    assert(action_table().len() == 28);
}

#[verifier::rlimit(50)]
proof fn lemma_other_actions(focus: Pane)
    ensures
        action_of(KeyCode::Char('t'), focus) == (if focus == Pane::Pipelines { Some(PaneAction::ToggleTree) } else { None }),
        action_of(KeyCode::Char('f'), focus) == (if focus == Pane::Pipelines {
            Some(PaneAction::ToggleRunningOnly)
        } else if focus == Pane::Processes {
            Some(PaneAction::ToggleProcRunning)
        } else if focus == Pane::BuildEdges {
            Some(PaneAction::ToggleEdgeRunning)
        } else {
            None
        }),
        action_of(KeyCode::Char('n'), focus) == (if focus == Pane::Rules { Some(PaneAction::NewRule) } else { None }),
        action_of(KeyCode::Char('d'), focus) == Some(
            if focus == Pane::Hunks {
                PaneAction::DiscardHunk
            } else if focus == Pane::Rules {
                PaneAction::DeleteRule
            } else {
                PaneAction::Detach
            },
        ),
        action_of(KeyCode::Char('/'), focus) == Some(PaneAction::ToggleFilter),
        action_of(KeyCode::Char('r'), focus) == Some(PaneAction::StartRename),
        action_of(KeyCode::Char('R'), focus) == Some(PaneAction::Refresh),
{
    reveal_with_fuel(action_from, 30);
    assert(action_table().len() == 28);
}

/// `a` applies and `x` discards: on the diff the hunk at the cursor, elsewhere what is selected or
/// at the cursor. `A` and `X` do so with all changes of the box.
pub proof fn law_keys_that_take_changes(a: App, b: App, k: char, mods: Mods, now: u64)
    requires
        list_has_keys(a),
        a.key_v(KeyCode::Char(k), mods, now, b),
    ensures
        k == 'a' && a.ui.focus == Pane::Hunks ==> a.take_hunk_v(false, b),
        k == 'x' && a.ui.focus == Pane::Hunks ==> a.take_hunk_v(true, b),
        k == 'd' && a.ui.focus == Pane::Hunks ==> a.take_hunk_v(true, b),
        k == 'a' && a.ui.focus != Pane::Hunks ==> a.review_v(false, b),
        k == 'x' && a.ui.focus != Pane::Hunks ==> a.review_v(true, b),
        k == 'A' ==> only_plans(a, b) && b.plan() == a.all_steps(false) + a.plan(),
        k == 'X' ==> only_plans(a, b) && b.plan() == a.all_steps(true) + a.plan(),
{
    lemma_panes(k);
    lemma_taking_actions(a.ui.focus);
    lemma_other_actions(a.ui.focus);
}

/// F5 applies and F8 discards the hunk or the change at the cursor; F8 deletes a rule and asks
/// whether to delete a box.
pub proof fn law_function_keys_that_take_changes(a: App, b: App, mods: Mods, now: u64)
    requires
        list_has_keys(a),
    ensures
        a.ui.focus == Pane::Hunks && a.key_v(KeyCode::F(5), mods, now, b) ==> a.take_hunk_v(false, b),
        a.ui.focus == Pane::Hunks && a.key_v(KeyCode::F(8), mods, now, b) ==> a.take_hunk_v(true, b),
        a.ui.focus == Pane::Changes && a.key_v(KeyCode::F(5), mods, now, b) ==> a.review_v(false, b),
        a.ui.focus == Pane::Changes && a.key_v(KeyCode::F(8), mods, now, b) ==> a.review_v(true, b),
        a.ui.focus == Pane::Rules && a.key_v(KeyCode::F(8), mods, now, b) ==> a.delete_rule_v(b),
        a.ui.focus == Pane::Sessions && a.key_v(KeyCode::F(8), mods, now, b) ==> b.todo == a.todo && (modal_v(
            b.ui.modal,
        ) matches Some(ModalV::Confirm { action, .. }) && action == ConfirmAction::Dissolve),
        a.ui.focus == Pane::Sessions && a.key_v(KeyCode::F(6), mods, now, b) ==> (b.ui.renaming matches Some(s)
            && s@.len() == 0),
        a.key_v(KeyCode::F(10), mods, now, b) ==> b.ui.should_quit && b.plan() == seq![StepV::Shutdown] + a.plan(),
{
}

/// `K` asks whether to kill, `D` whether to delete; neither asks anything of the engine before the
/// answer.
pub proof fn law_killing_is_asked_about(a: App, b: App, mods: Mods, now: u64)
    requires
        list_has_keys(a),
    ensures
        a.key_v(KeyCode::Char('K'), mods, now, b) ==> b.todo == a.todo && (modal_v(b.ui.modal) matches Some(
            ModalV::Confirm { action, .. },
        ) && action == ConfirmAction::Kill),
        a.key_v(KeyCode::Char('D'), mods, now, b) ==> b.todo == a.todo && (modal_v(b.ui.modal) matches Some(
            ModalV::Confirm { action, .. },
        ) && action == ConfirmAction::Dissolve),
{
    lemma_panes('K');
    lemma_panes('D');
    lemma_taking_actions(a.ui.focus);
}

/// `y` does what was asked about, `n` and Esc do not.
pub proof fn law_only_yes_kills(a: App, b: App, prompt: Seq<char>, action: ConfirmAction, code: KeyCode, mods: Mods, now: u64)
    requires
        modal_v(a.ui.modal) == Some(ModalV::Confirm { prompt, action }),
        a.key_v(code, mods, now, b),
    ensures
        code == KeyCode::Char('y') || code == KeyCode::Char('Y') ==> a.without_modal().confirm_v(action, b) && b.ui.modal
            is None,
        code != KeyCode::Char('y') && code != KeyCode::Char('Y') ==> b.todo == a.todo && b.boxes == a.boxes,
        code == KeyCode::Char('n') || code == KeyCode::Char('N') || code == KeyCode::Esc ==> b.ui.modal is None
            && b.ui.status@ == "cancelled"@,
{
}

/// `q` stops the engine and the client; `d` stops the client alone.
pub proof fn law_quitting_and_detaching(a: App, b: App, mods: Mods, now: u64)
    requires
        list_has_keys(a),
    ensures
        a.key_v(KeyCode::Char('q'), mods, now, b) ==> b.ui.should_quit && b.plan() == seq![StepV::Shutdown] + a.plan(),
        a.key_v(KeyCode::Char('d'), mods, now, b) && a.ui.focus != Pane::Hunks && a.ui.focus != Pane::Rules
            ==> b.ui.should_quit && b.todo == a.todo,
{
    lemma_panes('q');
    lemma_panes('d');
    lemma_actions(a.ui.focus);
    lemma_other_actions(a.ui.focus);
}

/// The letter of a pane goes to it.
pub proof fn law_letters_go_to_their_panes(a: App, b: App, p: Pane, k: char, mods: Mods, now: u64)
    requires
        list_has_keys(a),
        letter_of(p) == Some(k),
        p != Pane::Pty,
        k == 'f' ==> a.ui.focus != Pane::Pipelines && a.ui.focus != Pane::Processes && a.ui.focus != Pane::BuildEdges,
        a.key_v(KeyCode::Char(k), mods, now, b),
    ensures
        a.go_to_pane_v(p, b),
{
    lemma_panes(k);
    lemma_other_actions(a.ui.focus);
    assert(pane_of_key(k) == Some(p));
}

/// Space selects the row at the cursor, brackets select up to it, `/` is for the filter, Tab for the
/// other half, Enter opens, `j` and `k` go down and up.
pub proof fn law_keys_of_the_lists(a: App, b: App, code: KeyCode, mods: Mods, now: u64)
    requires
        list_has_keys(a),
        a.key_v(code, mods, now, b),
    ensures
        code == KeyCode::Char(' ') ==> a.toggle_mark_v(b),
        code == KeyCode::Char('[') || code == KeyCode::Char(']') ==> a.range_mark_v(b),
        code == KeyCode::Char('/') ==> a.toggle_filter_v(b),
        code == KeyCode::Char('!') ==> a.toggle_err_only_v(b),
        code == KeyCode::Tab ==> b == a.next_pane_v(),
        code == KeyCode::Enter && a.ui.focus != Pane::Rules ==> a.open_v(b),
        code == KeyCode::Char('j') || (code == KeyCode::Down && !mods.ctrl) ==> a.move_v(true, b),
        code == KeyCode::Char('k') || (code == KeyCode::Up && !mods.ctrl) ==> a.move_v(false, b),
        code == KeyCode::PageDown ==> a.page_v(true, b),
        code == KeyCode::PageUp ==> a.page_v(false, b),
        code == KeyCode::Home ==> a.extreme_v(false, b),
        code == KeyCode::End ==> a.extreme_v(true, b),
        code == KeyCode::Backspace ==> a.go_back_v(b),
        code == KeyCode::Char('r') ==> (b.ui.renaming matches Some(s) && s@.len() == 0),
        code == KeyCode::Char('t') && a.ui.focus == Pane::Pipelines ==> a.toggle_pipeline_tree_v(b),
        code == KeyCode::Char('f') && a.ui.focus == Pane::Pipelines ==> a.toggle_pipeline_running_only_v(b),
        code == KeyCode::Char('f') && a.ui.focus == Pane::Processes ==> a.toggle_proc_running_only_v(b),
        code == KeyCode::Char('f') && a.ui.focus == Pane::BuildEdges ==> a.toggle_edge_running_only_v(b),
        code == KeyCode::Char('R') ==> b.plan() == seq![
            StepV::Op(Op::RefreshSessions),
            StepV::Op(Op::LoadChanges),
            StepV::Op(Op::LoadRules),
            StepV::Say("refreshed"@),
        ] + a.plan(),
{
    lemma_actions(a.ui.focus);
    lemma_other_actions(a.ui.focus);
    if let KeyCode::Char(k) = code {
        lemma_panes(k);
        }
}

/// On the rules, `n` begins a new one, Enter edits the one at the cursor, `d` deletes it and Ctrl
/// with an arrow moves it.
pub proof fn law_keys_of_the_rules(a: App, b: App, code: KeyCode, mods: Mods, now: u64)
    requires
        list_has_keys(a),
        a.ui.focus == Pane::Rules,
        a.key_v(code, mods, now, b),
    ensures
        code == KeyCode::Char('n') ==> modal_v(b.ui.modal) == Some(
            ModalV::RuleForm { buf: Seq::empty(), editing: None },
        ),
        code == KeyCode::Enter && a.side.sel_rule < a.side.rules@.len() ==> modal_v(b.ui.modal) == Some(
            ModalV::RuleForm {
                buf: a.side.rules@[a.side.sel_rule as int]@,
                editing: Some(a.side.sel_rule),
            },
        ),
        code == KeyCode::Char('d') ==> a.delete_rule_v(b),
        code == KeyCode::Up && mods.ctrl ==> a.move_rule_v(false, b),
        code == KeyCode::Down && mods.ctrl ==> a.move_rule_v(true, b),
{
    lemma_actions(a.ui.focus);
    lemma_other_actions(a.ui.focus);
    lemma_panes('n');
    lemma_panes('d');
}

/// A typed name replaces the box's with Enter, and is dropped with Esc.
pub proof fn law_typing_a_name(a: App, b: App, code: KeyCode, mods: Mods, now: u64)
    requires
        a.ui.modal is None,
        !a.ui.menu_nav,
        a.ui.renaming is Some,
        a.key_v(code, mods, now, b),
    ensures
        code == KeyCode::Enter ==> a.commit_rename_v(b),
        code == KeyCode::Esc ==> b.ui.renaming is None && b.todo == a.todo && b.boxes == a.boxes,
        code matches KeyCode::Char(c) ==> (b.ui.renaming matches Some(s) && s@ == a.ui.renaming->0@.push(c)) && b.todo
            == a.todo,
        code == KeyCode::Backspace && a.ui.renaming->0@.len() > 0 ==> (b.ui.renaming matches Some(s) && s@
            == a.ui.renaming->0@.drop_last()),
{
}

} // verus!
