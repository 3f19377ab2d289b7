//! Menus and dialogs.

use vstd::prelude::*;

#[allow(unused_imports)]
use crate::app::{App, NetMode, StepV};
#[allow(unused_imports)]
use crate::keys::{KeyCode, Mods};
#[allow(unused_imports)]
use crate::modals::{edited, search_edited};
#[allow(unused_imports)]
use crate::rules::{ClauseV, Join};
#[allow(unused_imports)]
use crate::text::trimmed;
#[allow(unused_imports)]
use crate::types::{modal_v, Action, ApiField, ClauseField, ConfirmAction, FilterView, ItemV, ModalV, Pane};

verus! {

/// An entry of a menu.
pub open spec fn entry(v: Seq<ItemV>, i: int, label: Seq<char>, action: Action) -> bool {
    0 <= i < v.len() && v[i].label == label && v[i].action == action
}

/// What the entries of the menus say is what they do.
pub proof fn law_entries_mean_what_they_say(a: App)
    ensures
        a.ui.focus == Pane::Sessions ==> (a.menu() matches Some((_, v)) && {
            &&& entry(v, 0, "Open changes view"@, Action::OpenSelection)
            &&& entry(v, 1, "Apply ALL changes to host"@, Action::ApplyBox)
            &&& entry(v, 2, "Delete box (finalize by rules, keep child boxes)"@, Action::DissolveBox)
            &&& entry(v, 3, "Discard ALL changes"@, Action::DiscardBox)
            &&& entry(v, 4, "Kill (SIGTERM)"@, Action::KillBox)
            &&& entry(v, 5, "Rename box"@, Action::StartRename)
            &&& entry(v, 6, "New box from image…"@, Action::NewFromImage)
            &&& entry(v, 7, "oaita agent session on this box…"@, Action::OaitaOnSelectedBox)
        }),
        a.ui.focus == Pane::Changes ==> (a.menu() matches Some((_, v)) && {
            &&& v.len() == 3
            &&& entry(v, 0, "Open diff"@, Action::OpenSelection)
            &&& entry(v, 1, "Apply this file"@, Action::ApplyFile)
            &&& entry(v, 2, "Discard this file"@, Action::DiscardFile)
        }),
        a.ui.focus == Pane::Hunks ==> (a.menu() matches Some((_, v)) && {
            &&& v.len() == 2
            &&& entry(v, 0, "Apply this hunk"@, Action::ApplyHunk)
            &&& entry(v, 1, "Discard this hunk"@, Action::DiscardHunk)
        }),
        a.ui.focus == Pane::Rules ==> (a.menu() matches Some((_, v)) && {
            &&& v.len() == 5
            &&& entry(v, 0, "Edit rule"@, Action::EditRule)
            &&& entry(v, 1, "New rule"@, Action::NewRule)
            &&& entry(v, 2, "Delete rule"@, Action::DeleteRule)
            &&& entry(v, 3, "Move up"@, Action::MoveRuleUp)
            &&& entry(v, 4, "Move down"@, Action::MoveRuleDown)
        }),
        a.ui.focus == Pane::Pty ==> (a.menu() matches Some((_, v)) && {
            &&& v.len() == 3
            &&& entry(v, 0, "New PTY"@, Action::PtyNew)
            &&& entry(v, 1, "Kill this PTY"@, Action::PtyKill)
            &&& entry(v, 2, "Embed in pane"@, Action::PtyEmbedToggle)
        }),
        ({
            let v = a.launch_items();
            &&& entry(v, 0, "Shell in a NEW box (captured; sarun run -b)"@, Action::PtyNewBoxShell)
            &&& entry(v, 1, "Container from image… (pick a base image)"@, Action::NewFromImage)
            &&& entry(v, 2, "Browser — carbonyl (container; flows captured)"@, Action::BrowserCarbonyl)
            &&& entry(v, 3, "Host shell — "@ + a.env.shell@ + " (NOT captured)"@, Action::PtyNewHostShell)
            &&& entry(v, v.len() - 1, "Custom command…"@, Action::PtyNewCustom)
        }),
{
}

/// Each action is the one that it is named for.
pub proof fn law_actions_do_what_they_are_named_for(a: App, b: App, act: Action)
    requires
        a.action_v(act, b),
    ensures
        act == Action::ApplyFile || act == Action::ApplyBox ==> a.review_v(false, b),
        act == Action::DiscardFile || act == Action::DiscardBox ==> a.review_v(true, b),
        act == Action::ApplyHunk ==> a.take_hunk_v(false, b),
        act == Action::DiscardHunk ==> a.take_hunk_v(true, b),
        act == Action::KillBox ==> b.todo == a.todo && (modal_v(b.ui.modal) matches Some(
            ModalV::Confirm { action, .. },
        ) && action == ConfirmAction::Kill),
        act == Action::DissolveBox ==> b.todo == a.todo && (modal_v(b.ui.modal) matches Some(
            ModalV::Confirm { action, .. },
        ) && action == ConfirmAction::Dissolve),
        act == Action::DeleteRule ==> a.delete_rule_v(b),
        act == Action::MoveRuleUp ==> a.move_rule_v(false, b),
        act == Action::MoveRuleDown ==> a.move_rule_v(true, b),
        act == Action::NewRule ==> modal_v(b.ui.modal) == Some(ModalV::RuleForm { buf: Seq::empty(), editing: None }),
        act == Action::EditRule && a.side.sel_rule < a.side.rules@.len() ==> modal_v(b.ui.modal) == Some(
            ModalV::RuleForm {
                buf: a.side.rules@[a.side.sel_rule as int]@,
                editing: Some(a.side.sel_rule),
            },
        ),
        act == Action::StartRename ==> (b.ui.renaming matches Some(s) && s@.len() == 0),
        act == Action::PtyKill ==> a.pty_kill_v(b),
        act == Action::OpenSelection ==> a.open_v(b),
{
}

/// Enter in a menu does what the entry at the cursor says, and closes the menu; the arrows go from
/// entry to entry.
pub proof fn law_the_entry_at_the_cursor_is_chosen(a: App, b: App, title: Seq<char>, items: Seq<ItemV>, sel: int, code: KeyCode, mods: Mods, now: u64)
    requires
        modal_v(a.ui.modal) == Some(ModalV::ActionMenu { title, items, sel }),
        0 <= sel < items.len(),
        a.key_v(code, mods, now, b),
    ensures
        code == KeyCode::Enter ==> a.without_modal().action_v(items[sel].action, b),
        code == KeyCode::Down && sel + 1 < items.len() ==> modal_v(b.ui.modal) == Some(
            ModalV::ActionMenu { title, items, sel: sel + 1 },
        ),
        code == KeyCode::Up && sel > 0 ==> modal_v(b.ui.modal) == Some(
            ModalV::ActionMenu { title, items, sel: sel - 1 },
        ),
        code == KeyCode::Home ==> modal_v(b.ui.modal) == Some(ModalV::ActionMenu { title, items, sel: 0 }),
        code == KeyCode::End ==> modal_v(b.ui.modal) == Some(
            ModalV::ActionMenu { title, items, sel: items.len() - 1 },
        ),
        code != KeyCode::Enter ==> b.todo == a.todo,
{
}

/// In the launcher, `n` goes to the next way to the network and `e` turns the environment on or
/// off; Enter starts the entry at the cursor.
pub proof fn law_the_launcher_chooses(a: App, b: App, items: Seq<ItemV>, sel: int, code: KeyCode, mods: Mods, now: u64)
    requires
        modal_v(a.ui.modal) == Some(ModalV::Launcher { items, sel }),
        0 <= sel < items.len(),
        a.key_v(code, mods, now, b),
    ensures
        code == KeyCode::Enter ==> a.without_modal().action_v(items[sel].action, b),
        code == KeyCode::Char('e') ==> b.jobs.launch.env == !a.jobs.launch.env && b.jobs.launch.net == a.jobs.launch.net,
        code == KeyCode::Char('n') ==> b.jobs.launch.env == a.jobs.launch.env && b.jobs.launch.net == (
        match a.jobs.launch.net {
            NetMode::Tap => NetMode::Host,
            NetMode::Host => NetMode::Off,
            NetMode::Off => NetMode::Tap,
        }),
        code == KeyCode::Esc ==> b.jobs.launch == a.jobs.launch && b.ui.modal is None && b.todo == a.todo,
{
}

/// In the filter dialog, Space turns what the cursor is on, a letter is put behind the pattern, and
/// no other row and nothing else of the row changes.
pub proof fn law_one_field_of_one_clause_is_edited(v: FilterView, rows: Seq<ClauseV>, sel: int, field: ClauseField, c: char)
    requires
        0 <= sel < rows.len(),
        field == ClauseField::Pattern || c == ' ',
    ensures
        search_edited(v, rows, sel, field, KeyCode::Char(c)) matches ModalV::Search { view, rows: after, sel: at, field: on } && {
            &&& view == v
            &&& at == sel
            &&& on == field
            &&& after.len() == rows.len()
            &&& forall|i: int| 0 <= i < rows.len() && i != sel ==> #[trigger] after[i] == rows[i]
            &&& field == ClauseField::Negate ==> after[sel] == (ClauseV { negate: !rows[sel].negate, ..rows[sel] })
            &&& field == ClauseField::Enabled ==> after[sel] == (ClauseV { enabled: !rows[sel].enabled, ..rows[sel] })
            &&& field == ClauseField::Join ==> after[sel] == (ClauseV {
                join: if rows[sel].join == Join::And { Join::Or } else { Join::And },
                ..rows[sel]
            })
            &&& field == ClauseField::Pattern ==> after[sel] == (ClauseV {
                pattern: rows[sel].pattern.push(c),
                ..rows[sel]
            })
            &&& field == ClauseField::Kind ==> after[sel] == (ClauseV { kind: after[sel].kind, ..rows[sel] })
        },
{
}

/// The kinds of clauses that Space goes through are those of the list.
pub proof fn law_kinds_of_the_lists()
    ensures
        crate::types::kinds_of(FilterView::Changes) == seq!["path"@, "box"@, "exe"@, "cwd"@, "arg"@],
        crate::types::kinds_of(FilterView::Procs) == seq!["box"@, "exe"@, "cwd"@, "arg"@],
        crate::types::kinds_of(FilterView::Outputs) == seq!["box"@, "exe"@, "cwd"@, "arg"@],
        crate::types::kinds_of(FilterView::Pipelines) == seq!["cmd"@],
        crate::types::kinds_of(FilterView::BuildEdges) == seq!["target"@, "cmd"@],
{
}

/// Enter commits the filter of the dialog for its list; Esc leaves the filters as they are.
pub proof fn law_enter_commits_the_filter(a: App, b: App, v: FilterView, rows: Seq<ClauseV>, sel: int, field: ClauseField, mods: Mods, now: u64)
    requires
        modal_v(a.ui.modal) == Some(ModalV::Search { view: v, rows, sel, field }),
    ensures
        a.key_v(KeyCode::Enter, mods, now, b) ==> a.without_modal().commit_filter_v(v, rows, b),
        a.key_v(KeyCode::Esc, mods, now, b) ==> b.filters == a.filters && b.todo == a.todo && b.ui.modal is None,
{
}

/// The filter dialog of a list begins with the clauses that the list has.
pub proof fn law_the_dialog_begins_with_the_filter(a: App, b: App, v: FilterView)
    requires
        crate::laws::going::shows(a.ui.focus, v),
        !a.filter(v).on,
        a.toggle_filter_v(b),
    ensures
        b.todo == a.todo,
        b.filters == a.filters,
        modal_v(b.ui.modal) matches Some(ModalV::Search { view, rows, .. }) && {
            &&& view == v
            &&& a.filter(v)@.clauses.len() > 0 ==> rows == a.filter(v)@.clauses
            &&& a.filter(v)@.clauses.len() == 0 ==> rows.len() == 1 && rows[0].pattern.len() == 0 && rows[0].enabled
                && !rows[0].negate
        },
{
}

/// `/` on a list whose filter is on turns the filter off.
pub proof fn law_a_filter_is_turned_off(a: App, b: App, v: FilterView)
    requires
        crate::laws::going::shows(a.ui.focus, v),
        a.filter(v).on,
        a.toggle_filter_v(b),
    ensures
        a.clear_filter_v(v, b),
        !b.filter(v).on,
{
}

/// Enter in the rule form keeps the rule in its place, Esc drops what was typed.
pub proof fn law_enter_keeps_the_rule(a: App, b: App, buf: Seq<char>, editing: Option<usize>, code: KeyCode, mods: Mods, now: u64)
    requires
        modal_v(a.ui.modal) == Some(ModalV::RuleForm { buf, editing }),
        a.key_v(code, mods, now, b),
    ensures
        code == KeyCode::Enter ==> a.without_modal().commit_rule_v(buf, editing, b),
        code == KeyCode::Esc ==> b.side == a.side && b.todo == a.todo && b.ui.modal is None,
        code matches KeyCode::Char(c) ==> modal_v(b.ui.modal) == Some(ModalV::RuleForm { buf: buf.push(c), editing })
            && b.side == a.side && b.todo == a.todo,
{
}

/// In the editor of the endpoint a letter goes to the field that the cursor is on, and to no other.
pub proof fn law_a_letter_goes_to_its_field(a: App, b: App, base_url: Seq<char>, model: Seq<char>, api_key: Seq<char>, slot: ApiField, result: Seq<char>, testing: bool, c: char, mods: Mods, now: u64)
    requires
        modal_v(a.ui.modal) == Some(ModalV::ApiConfig { base_url, model, api_key, slot, result, testing }),
        !mods.ctrl,
        a.key_v(KeyCode::Char(c), mods, now, b),
    ensures
        b.todo == a.todo,
        modal_v(b.ui.modal) == Some(
            ModalV::ApiConfig {
                base_url: if slot == ApiField::BaseUrl { base_url.push(c) } else { base_url },
                model: if slot == ApiField::Model { model.push(c) } else { model },
                api_key: if slot == ApiField::ApiKey { api_key.push(c) } else { api_key },
                slot,
                result,
                testing,
            },
        ),
{
}

/// The endpoint is tested with what stands in the fields, and is written only where a model is
/// named.
pub proof fn law_the_endpoint_is_tested_and_written(a: App, b: App, base_url: Seq<char>, model: Seq<char>, api_key: Seq<char>, slot: ApiField, result: Seq<char>, testing: bool, mods: Mods, now: u64)
    requires
        modal_v(a.ui.modal) == Some(ModalV::ApiConfig { base_url, model, api_key, slot, result, testing }),
    ensures
        mods.ctrl && a.key_v(KeyCode::Char('t'), mods, now, b) ==> b.plan() == seq![
            StepV::Probe(base_url, model, api_key),
        ] + a.plan(),
        trimmed(model).len() > 0 && a.key_v(KeyCode::Enter, mods, now, b) ==> b.ui.modal is None && b.plan().len()
            == a.plan().len() + 1 && b.plan()[0] is WriteApiConfig,
        trimmed(model).len() == 0 && a.key_v(KeyCode::Enter, mods, now, b) ==> b.plan() == a.plan() && b.ui.modal is Some,
        a.key_v(KeyCode::Esc, mods, now, b) ==> b.plan() == a.plan() && b.ui.modal is None,
{
}

/// What is written of an endpoint names the model, and the address and the key where there are any.
pub proof fn law_the_endpoint_file(base_url: Seq<char>, model: Seq<char>, api_key: Seq<char>)
    requires
        trimmed(base_url).len() > 0,
        trimmed(api_key).len() > 0,
    ensures
        crate::jobs::endpoint_file(base_url, model, api_key) == "model = "@ + crate::outside::quoted_text(trimmed(model))
            + "\n"@ + ("base_url = "@ + crate::outside::quoted_text(trimmed(base_url)) + "\n"@) + ("api_key = "@
            + crate::outside::quoted_text(trimmed(api_key)) + "\n"@),
{
}

} // verus!
