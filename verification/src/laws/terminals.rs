//! Terminals: what is typed into them, and which of them is shown, ended or resized.

use vstd::prelude::*;

#[allow(unused_imports)]
use crate::app::{App, StepV};
#[allow(unused_imports)]
use crate::json::{lookup, JV};
#[allow(unused_imports)]
use crate::keys::{KeyCode, Mods};
#[allow(unused_imports)]
use crate::terms::{key_bytes, pty_kind, spawn_request, Button, MouseKind, PtyButton, PtyMouseKind};
#[allow(unused_imports)]
use crate::types::Pane;

verus! {

/// The bytes of the keys that are no letters.
pub proof fn law_bytes_of_the_keys(mods: Mods)
    ensures
        key_bytes(KeyCode::Enter, mods) == Some(seq![13u8]),
        key_bytes(KeyCode::Tab, mods) == Some(seq![9u8]),
        key_bytes(KeyCode::Backspace, mods) == Some(seq![127u8]),
        key_bytes(KeyCode::Esc, mods) == Some(seq![27u8]),
        key_bytes(KeyCode::Up, mods) == Some(seq![27u8, 91u8, 65u8]),
        key_bytes(KeyCode::Down, mods) == Some(seq![27u8, 91u8, 66u8]),
        key_bytes(KeyCode::Right, mods) == Some(seq![27u8, 91u8, 67u8]),
        key_bytes(KeyCode::Left, mods) == Some(seq![27u8, 91u8, 68u8]),
{
}

/// Ctrl with a letter is the byte of its place in the alphabet, whichever case it is typed in.
pub proof fn law_control_letters(c: char, mods: Mods)
    requires
        mods.ctrl,
        'a' <= c <= 'z' || 'A' <= c <= 'Z',
    ensures
        'a' <= c <= 'z' ==> key_bytes(KeyCode::Char(c), mods) == Some(seq![(c as u32 - 96) as u8]),
        'A' <= c <= 'Z' ==> key_bytes(KeyCode::Char(c), mods) == Some(seq![(c as u32 - 64) as u8]),
{
}

/// A letter without Ctrl is its UTF-8.
pub proof fn law_letters_are_typed_as_they_are(c: char, mods: Mods)
    requires
        !mods.ctrl,
    ensures
        key_bytes(KeyCode::Char(c), mods) == Some(vstd::utf8::encode_utf8(seq![c])),
{
}

/// Each button and each way of the wheel reaches the program as what it is; a mere move of the mouse
/// does not.
pub proof fn law_buttons_and_wheels_are_told_apart(b: Button)
    ensures
        pty_kind(MouseKind::Down(b)) matches Some((k, _)) && k == PtyMouseKind::Press,
        pty_kind(MouseKind::Up(b)) matches Some((k, _)) && k == PtyMouseKind::Release,
        pty_kind(MouseKind::Drag(b)) matches Some((k, _)) && k == PtyMouseKind::Move,
        pty_kind(MouseKind::Down(Button::Left)) == Some((PtyMouseKind::Press, PtyButton::Left)),
        pty_kind(MouseKind::Down(Button::Right)) == Some((PtyMouseKind::Press, PtyButton::Right)),
        pty_kind(MouseKind::Down(Button::Middle)) == Some((PtyMouseKind::Press, PtyButton::Middle)),
        pty_kind(MouseKind::ScrollUp) == Some((PtyMouseKind::Press, PtyButton::WheelUp)),
        pty_kind(MouseKind::ScrollDown) == Some((PtyMouseKind::Press, PtyButton::WheelDown)),
        pty_kind(MouseKind::ScrollLeft) == Some((PtyMouseKind::Press, PtyButton::WheelLeft)),
        pty_kind(MouseKind::ScrollRight) == Some((PtyMouseKind::Press, PtyButton::WheelRight)),
        pty_kind(MouseKind::Moved) is None,
{
}

/// Killing the terminal at the cursor closes that one and leaves all others, in their order.
pub proof fn law_only_the_terminal_at_the_cursor_is_killed(a: App, b: App)
    requires
        a.terms.sel < a.terms.ptys@.len(),
        a.pty_kill_v(b),
    ensures
        b.terms.ptys@.len() == a.terms.ptys@.len() - 1,
        forall|i: int| 0 <= i < a.terms.sel ==> #[trigger] b.terms.ptys@[i] == a.terms.ptys@[i],
        forall|i: int|
            a.terms.sel <= i < b.terms.ptys@.len() ==> #[trigger] b.terms.ptys@[i] == a.terms.ptys@[i + 1],
        b.plan().len() > a.plan().len(),
        b.plan()[0] == StepV::ClosePty(a.terms.sel as int),
        a.terms.ptys@.len() == 1 ==> b.ui.focus == Pane::Sessions,
{
}

/// The next terminal is the one behind, and the first one behind the last; the one before is the
/// other way round.
pub proof fn law_terminals_go_round(a: App, b: App)
    requires
        a.terms.sel < a.terms.ptys@.len(),
        !a.terms.ptys@[a.terms.sel as int].eof,
    ensures
        a.pty_next_v(b) && a.terms.sel + 1 < a.terms.ptys@.len() ==> b.terms.sel == a.terms.sel + 1,
        a.pty_next_v(b) && a.terms.sel + 1 == a.terms.ptys@.len() ==> b.terms.sel == 0,
        a.pty_prev_v(b) && a.terms.sel > 0 ==> b.terms.sel == a.terms.sel - 1,
        a.pty_prev_v(b) && a.terms.sel == 0 ==> b.terms.sel == a.terms.ptys@.len() - 1,
        a.pty_next_v(b) || a.pty_prev_v(b) ==> b.todo == a.todo && b.terms.ptys == a.terms.ptys,
{
    let n = a.terms.ptys@.len() as int;
    let i = a.terms.sel as int;
    assert(a.terms.ptys.len() == n);
    if i + 1 < n {
        assert((i + 1) % n == i + 1) by (nonlinear_arith)
            requires
                0 <= i + 1 < n,
        ;
    } else {
        assert((i + 1) % n == 0) by (nonlinear_arith)
            requires
                i + 1 == n,
                n > 0,
        ;
    }
    if i > 0 {
        assert((i + n - 1) % n == i - 1) by (nonlinear_arith)
            requires
                0 < i < n,
        ;
    } else {
        assert((i + n - 1) % n == n - 1) by (nonlinear_arith)
            requires
                i == 0,
                n > 0,
        ;
    }
}

/// In a terminal, F2 and F3 go to the next one and the one before, F8 kills it, F12 leaves it
/// running.
pub proof fn law_function_keys_of_a_terminal(a: App, b: App, mods: Mods, now: u64)
    requires
        a.ui.modal is None,
        !a.ui.menu_nav,
        a.ui.renaming is None,
        a.ui.focus == Pane::Pty,
        a.terms.sel < a.terms.ptys@.len(),
    ensures
        a.key_v(KeyCode::F(2), mods, now, b) ==> a.pty_next_v(b),
        a.key_v(KeyCode::F(3), mods, now, b) ==> a.pty_prev_v(b),
        a.key_v(KeyCode::F(8), mods, now, b) ==> a.pty_kill_v(b),
        a.key_v(KeyCode::F(12), mods, now, b) && !a.terms.ptys@[a.terms.sel as int].eof ==> b.ui.focus == Pane::Sessions
            && b.terms.ptys == a.terms.ptys && b.todo == a.todo,
{
}

/// A letter that is typed in a terminal goes to its program, and nothing else happens.
pub proof fn law_a_letter_goes_to_the_program(a: App, b: App, c: char, mods: Mods, now: u64)
    requires
        a.ui.modal is None,
        !a.ui.menu_nav,
        a.ui.renaming is None,
        a.ui.focus == Pane::Pty,
        a.terms.sel < a.terms.ptys@.len(),
        !a.terms.ptys@[a.terms.sel as int].eof,
        a.terms.esc_at is None,
        !mods.ctrl,
        c != '\u{1d}',
        a.key_v(KeyCode::Char(c), mods, now, b),
    ensures
        b.plan() == seq![StepV::Input(vstd::utf8::encode_utf8(seq![c]))] + a.plan(),
        b == (App { todo: b.todo, ..a }),
{
    assert(a.held_back() =~= Seq::<StepV>::empty());
    assert(Seq::<StepV>::empty() + seq![StepV::Input(vstd::utf8::encode_utf8(seq![c]))] =~= seq![
        StepV::Input(vstd::utf8::encode_utf8(seq![c])),
    ]);
}

/// A terminal that is resized is told its size, rows first.
pub proof fn law_a_resized_terminal_is_told(a: App, b: App, cols: u16, rows: u16)
    requires
        a.terms.sel < a.terms.ptys@.len(),
        a.fit_v(cols, rows, b),
        b != a,
    ensures
        b.plan() == seq![
            StepV::Resize(b.terms.ptys@[a.terms.sel as int].rows, b.terms.ptys@[a.terms.sel as int].cols),
        ] + a.plan(),
        forall|i: int|
            0 <= i < a.terms.ptys@.len() && i != a.terms.sel ==> #[trigger] b.terms.ptys@[i] == a.terms.ptys@[i],
{
}

/// A terminal is asked for with its words, its rows and its columns.
pub proof fn law_a_terminal_is_asked_for(argv: Seq<Seq<char>>, rows: u16, cols: u16, cwd: Option<Seq<char>>, env: Seq<(Seq<char>, Seq<char>)>)
    ensures
        ({
            let j = spawn_request(argv, rows, cols, cwd, env);
            &&& j.get("type"@) == Some(JV::Str("pty_spawn"@))
            &&& j.get("rows"@) == Some(JV::Int(rows as int))
            &&& j.get("cols"@) == Some(JV::Int(cols as int))
            &&& j.get("argv"@) matches Some(JV::Arr(v)) && v.len() == argv.len() && forall|i: int|
                0 <= i < argv.len() ==> #[trigger] v[i] == JV::Str(argv[i])
            &&& j.get("cwd"@) == Some(
                match cwd {
                    Some(d) => JV::Str(d),
                    None => JV::Null,
                },
            )
        }),
{
    reveal_strlit("type");
    reveal_strlit("argv");
    reveal_strlit("rows");
    reveal_strlit("cols");
    reveal_strlit("cwd");
    assert("type"@[0] == 't');
    assert("argv"@[0] == 'a');
    assert("rows"@[0] == 'r');
    assert("cols"@[0] == 'c' && "cols"@.len() == 4);
    assert("cwd"@.len() == 3 && "cwd"@[0] == 'c');
    let e = spawn_request(argv, rows, cols, cwd, env)->Obj_0;
    reveal_with_fuel(lookup, 6);
    assert(e.drop_first()[0] == e[1]);
    assert(e.drop_first().drop_first()[0] == e[2]);
    assert(e.drop_first().drop_first().drop_first()[0] == e[3]);
    assert(e.drop_first().drop_first().drop_first().drop_first()[0] == e[4]);
}

} // verus!
