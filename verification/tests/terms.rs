use sarun_ui::app::{App, Env, Step};
use sarun_ui::json::Json;
use sarun_ui::keys::{KeyCode, Mods};
use sarun_ui::outside::Rect;
use sarun_ui::plan::Turn;
use sarun_ui::style::Color;
use sarun_ui::terms::{
    cell_style, first_size, key_to_pty_bytes, mouse_to_pty_event, place_cell, pty_ack, pty_grid_rect, pty_request, Button,
    CellColor, CellLook, Intensity, Mouse, MouseKind, PtyButton, PtyMouseKind,
};
use sarun_ui::types::{Modal, Pane};

const NO_MODS: Mods = Mods { ctrl: false, alt: false, shift: false };

fn headless_app() -> App {
    let env = Env { sock: String::new(), exe: "/opt/sarun".into(), shell: "/bin/sh".into() };
    App::blank(env, true, Pane::Help, "")
}

#[test]
fn mouse_translates_grid_local_and_rejects_outside() {
    let grid = Rect { x: 10, y: 2, width: 20, height: 10 };
    let ev = |column, row, kind| Mouse { kind, column, row, mods: NO_MODS };
    let p = mouse_to_pty_event(ev(10, 2, MouseKind::Down(Button::Left)), grid)
        .expect("top-left corner is inside");
    assert_eq!((p.x, p.y), (0, 0));
    let p = mouse_to_pty_event(ev(29, 11, MouseKind::Up(Button::Right)), grid)
        .expect("bottom-right corner is inside");
    assert_eq!((p.x, p.y), (19, 9));
    for (c, r) in [(9, 5), (30, 5), (15, 1), (15, 12)] {
        assert!(
            mouse_to_pty_event(ev(c, r, MouseKind::Moved), grid).is_none(),
            "({c},{r}) is outside the grid"
        );
    }
    let p = mouse_to_pty_event(ev(15, 5, MouseKind::ScrollUp), grid).unwrap();
    assert!(matches!(p.kind, PtyMouseKind::Press));
    assert!(matches!(p.button, PtyButton::WheelUp));
}

#[test]
fn a_move_without_a_button_is_of_no_interest() {
    let grid = Rect { x: 10, y: 2, width: 20, height: 10 };
    let ev = |kind| Mouse { kind, column: 15, row: 5, mods: NO_MODS };
    assert_eq!(mouse_to_pty_event(ev(MouseKind::Moved), grid), None);
    let p = mouse_to_pty_event(ev(MouseKind::Drag(Button::Left)), grid).expect("a drag is");
    assert_eq!((p.kind, p.button, p.x, p.y), (PtyMouseKind::Move, PtyButton::Left, 5, 3));
}

#[test]
fn keys_become_the_bytes_of_a_terminal() {
    let plain = |k| key_to_pty_bytes(k, NO_MODS);
    assert_eq!(plain(KeyCode::Char('a')), Some(b"a".to_vec()));
    assert_eq!(plain(KeyCode::Char('é')), Some("é".as_bytes().to_vec()));
    assert_eq!(plain(KeyCode::Char('€')), Some("€".as_bytes().to_vec()));
    assert_eq!(plain(KeyCode::Char('𝄞')), Some("𝄞".as_bytes().to_vec()));
    assert_eq!(plain(KeyCode::Enter), Some(b"\r".to_vec()));
    assert_eq!(plain(KeyCode::Up), Some(b"\x1b[A".to_vec()));
    assert_eq!(plain(KeyCode::Backspace), Some(vec![0x7f]));
    assert_eq!(plain(KeyCode::Other), None);
    let ctrl = Mods { ctrl: true, ..NO_MODS };
    assert_eq!(key_to_pty_bytes(KeyCode::Char('c'), ctrl), Some(vec![3]));
}

#[test]
fn cells_are_drawn_as_the_terminal_says() {
    let look = CellLook {
        fg: CellColor::Palette(1),
        bg: CellColor::True(1, 2, 3),
        intensity: Intensity::Bold,
        italic: false,
        underline: true,
        reverse: false,
        strikethrough: false,
        invisible: false,
        blink: false,
    };
    let s = cell_style(look);
    assert_eq!(s.fg, Some(Color::Red));
    assert_eq!(s.bg, Some(Color::Rgb(1, 2, 3)));
    assert!(s.bold && s.underlined && !s.dim);
}

#[test]
fn a_terminal_fits_the_screen() {
    assert_eq!(first_size(Some((100, 40))), (35, 100));
    assert_eq!(first_size(Some((5, 3))), (2, 20));
    assert_eq!(first_size(None), (24, 80));
    let app = headless_app();
    assert_eq!(pty_grid_rect(&app, 80, 24), None);
}

#[test]
fn a_terminal_is_asked_for() {
    let env = vec![("TERM".to_string(), "dumb".to_string()), ("HOME".to_string(), "/root".to_string())];
    let r = pty_request(&vec!["bash".to_string()], 24, 80, Some("/src".into()), &env);
    assert_eq!(r.get_str("type"), Some("pty_spawn"));
    assert_eq!(r.get_i64("rows"), Some(24));
    assert_eq!(r.get_i64("cols"), Some(80));
    assert_eq!(r.get_str("cwd"), Some("/src"));
    let e = r.get("env").unwrap();
    assert_eq!(e.get_str("TERM"), Some("xterm-256color"));
    assert_eq!(e.get_str("COLORTERM"), Some("truecolor"));
    assert_eq!(e.get_str("HOME"), Some("/root"));
    assert_eq!(pty_ack(&Json::obj().with("ok", Json::Bool(true))), Ok(()));
    assert_eq!(pty_ack(&Json::obj().with("error", Json::text("no shell"))), Err("no shell".to_string()));
    assert_eq!(pty_ack(&Json::obj()), Err("pty_spawn refused".to_string()));
}

/// The bytes that go to the program of the terminal at the cursor.
fn sent(app: &mut App) -> Vec<u8> {
    let mut bytes: Vec<u8> = Vec::new();
    loop {
        match app.next() {
            Turn::Idle => return bytes,
            Turn::Outside(Step::Input(b)) => bytes.extend(b),
            _ => {}
        }
    }
}

#[test]
fn typed_keys_reach_the_program() {
    let mut app = headless_app();
    app.open_pty(vec!["sarun".into(), "run".into()]);
    match app.next() {
        Turn::Outside(Step::OpenPty { argv }) => assert_eq!(argv, vec!["/opt/sarun", "run"]),
        other => panic!("a terminal is opened: {other:?}"),
    }
    app.pty_opened(Ok((24, 80)));
    assert_eq!(app.ui.focus, Pane::Pty);
    let _ = sent(&mut app);
    app.on_key(KeyCode::Char('q'), NO_MODS, 0);
    assert_eq!(sent(&mut app), b"q".to_vec());
    assert!(!app.ui.should_quit);
    app.ui.modal = Some(Modal::PtyCmd { buf: String::new() });
    app.on_key(KeyCode::Char('x'), NO_MODS, 0);
    assert!(sent(&mut app).is_empty(), "an open dialog gets the key");
    assert!(matches!(&app.ui.modal, Some(Modal::PtyCmd { buf }) if buf == "x"));
}

#[test]
fn every_esc_reaches_the_program_but_the_second_of_two() {
    let mut app = headless_app();
    app.pty_opened(Ok((24, 80)));
    let _ = sent(&mut app);
    app.on_key(KeyCode::Esc, NO_MODS, 1000);
    assert!(sent(&mut app).is_empty(), "it may be the first of two");
    app.on_key(KeyCode::Char('j'), NO_MODS, 1100);
    assert_eq!(sent(&mut app), b"\x1bj".to_vec());
    app.on_key(KeyCode::Esc, NO_MODS, 2000);
    app.on_key(KeyCode::Char('k'), NO_MODS, 9000);
    assert_eq!(sent(&mut app), b"\x1bk".to_vec(), "however long it was held back");
    app.on_key(KeyCode::Esc, NO_MODS, 10_000);
    app.on_key(KeyCode::Esc, NO_MODS, 10_400);
    assert_eq!(sent(&mut app), b"\x1b".to_vec(), "one that comes too late is the first again");
    assert_eq!(app.ui.focus, Pane::Pty);
    app.on_key(KeyCode::Esc, NO_MODS, 10_799);
    assert!(sent(&mut app).is_empty());
    assert_eq!(app.ui.focus, Pane::Sessions, "two of them take the keys away");
}

#[test]
fn an_empty_command_opens_nothing() {
    let mut app = headless_app();
    app.open_pty(vec![]);
    assert_eq!(app.ui.status, "pty: empty command");
    assert!(matches!(app.next(), Turn::Idle));
}

#[test]
fn terminals_come_round() {
    let mut app = headless_app();
    for _ in 0..3 {
        app.pty_opened(Ok((24, 80)));
    }
    assert_eq!(app.terms.sel, 2);
    app.pty_next();
    assert_eq!(app.terms.sel, 0);
    app.pty_prev();
    assert_eq!(app.terms.sel, 2);
    app.pty_kill();
    assert_eq!(app.terms.ptys.len(), 2);
    app.pty_ended(0);
    assert!(app.terms.ptys[0].eof);
}

#[test]
fn the_last_rows_of_a_terminal_are_in_view() {
    let area = Rect { x: 10, y: 2, width: 20, height: 5 };
    assert_eq!(place_cell(100, 3, 110, 10, 80, area), Some((13, 2)));
    assert_eq!(place_cell(104, 19, 110, 10, 80, area), Some((29, 6)));
    assert_eq!(place_cell(99, 0, 110, 10, 80, area), None, "above the screen");
    assert_eq!(place_cell(105, 0, 110, 10, 80, area), None, "below the part");
    assert_eq!(place_cell(100, 20, 110, 10, 80, area), None, "right of the part");
    assert_eq!(place_cell(0, 0, 3, 10, 80, area), Some((10, 2)));
}
