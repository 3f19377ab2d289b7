//! What the client is for: what is asked of the engine for a row, a selection, a key, and what
//! comes of the answer, said of the rows, the keys and the calls themselves.

use vstd::prelude::*;

use crate::app::App;
#[allow(unused_imports)]
use crate::app::StepV;
#[allow(unused_imports)]
use crate::json::JV;
use crate::types::{Pane, Win};

pub mod asking;
pub mod dialogs;
pub mod filtering;
pub mod finding;
pub mod going;
pub mod keyboard;
pub mod listing;
pub mod launching;
pub mod particulars;
pub mod review;
pub mod showing;
pub mod steps;
pub mod tables;
pub mod terminals;
pub mod viewing;
pub mod writing;

verus! {

/// The cursor of the boxes is on the box of that number.
pub open spec fn on_box(a: App, sid: Seq<char>) -> bool {
    a.boxes.sel < a.boxes.sessions@.len() && a.boxes.sessions@[a.boxes.sel as int]@.get("session_id"@) == Some(
        JV::Str(sid),
    )
}

/// The cursor of the boxes is on none.
pub open spec fn on_no_box(a: App) -> bool {
    a.boxes.sel >= a.boxes.sessions@.len()
}

/// The cursor of a list is on a row with that member.
pub open spec fn at_row(w: Win, k: Seq<char>, v: JV) -> bool {
    w.sel < w.rows@.len() && w.rows@[w.sel as int]@.get(k) == Some(v)
}

/// Nothing but the plan has changed.
pub open spec fn only_plans(a: App, b: App) -> bool {
    b == (App { todo: b.todo, ..a })
}

/// A key goes to the list on the screen: no dialog, no menu, no name that is typed, no terminal
/// and no question of the engine takes it.
pub open spec fn list_has_keys(a: App) -> bool {
    &&& a.ui.modal is None
    &&& !a.ui.menu_nav
    &&& a.ui.renaming is None
    &&& a.ui.focus != Pane::Pty
    &&& !a.terms.in_right
    &&& a.jobs.prompt is None
}

/// The verb of a call; nothing for any other step.
pub open spec fn verb_of(s: StepV) -> Seq<char> {
    match s {
        StepV::Call(verb, _, _) => verb,
        _ => Seq::empty(),
    }
}

} // verus!
