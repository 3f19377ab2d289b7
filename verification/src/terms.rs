//! The terminals that the engine holds: opening and closing them, their size, and what is typed
//! and clicked in them.

use vstd::prelude::*;

use vstd::utf8::encode_utf8;

use crate::app::{App, Step, Terms, Ui};
#[allow(unused_imports)]
use crate::app::StepV;
use crate::json::Json;
#[allow(unused_imports)]
use crate::json::JV;
use crate::keys::{KeyCode, Mods};
use crate::areas::{divide_below, divide_columns, divide_rows};
#[allow(unused_imports)]
use crate::areas::list_width;
use crate::outside::Rect;
#[allow(unused_imports)]
use crate::screen::{divided, Parts};
use crate::style::{plain, Color, Style};
use crate::text::{decimal, own, same};
#[allow(unused_imports)]
use crate::text::{dec, strs};
use crate::types::{Pane, PtyInfo};
#[allow(unused_imports)]
use crate::verbs::text_values;

verus! {

/// The letter in upper case.
pub open spec fn upper(c: char) -> char {
    if 'a' <= c <= 'z' { ((c as u32) - 32) as char } else { c }
}

/// The bytes that a character is sent as while Ctrl is held down.
pub open spec fn control_bytes(c: char) -> Seq<u8> {
    if 'A' <= upper(c) <= 'Z' {
        seq![(upper(c) as u32 - 64) as u8]
    } else if '4' <= c <= '7' {
        seq![(0x1c + (c as u32 - 0x34)) as u8]
    } else if c == ' ' || c == '@' {
        seq![0u8]
    } else if c == '?' {
        seq![0x7fu8]
    } else {
        encode_utf8(seq![c])
    }
}

/// The bytes that a key is sent to a program as; nothing where it is not sent.
pub open spec fn key_bytes(code: KeyCode, mods: Mods) -> Option<Seq<u8>> {
    match code {
        KeyCode::Char(c) => Some(if mods.ctrl { control_bytes(c) } else { encode_utf8(seq![c]) }),
        KeyCode::Enter => Some(seq![0x0du8]),
        KeyCode::Tab => Some(seq![0x09u8]),
        KeyCode::Backspace => Some(seq![0x7fu8]),
        KeyCode::Esc => Some(seq![0x1bu8]),
        KeyCode::Up => Some(seq![0x1bu8, 0x5bu8, 0x41u8]),
        KeyCode::Down => Some(seq![0x1bu8, 0x5bu8, 0x42u8]),
        KeyCode::Right => Some(seq![0x1bu8, 0x5bu8, 0x43u8]),
        KeyCode::Left => Some(seq![0x1bu8, 0x5bu8, 0x44u8]),
        _ => None,
    }
}

fn utf8_of(c: char) -> (r: Vec<u8>)
    ensures
        r@ == encode_utf8(seq![c]),
{
    let mut s: String = String::new();
    s.push(c);
    assert(s@ =~= seq![c]);
    let b: &[u8] = s.as_str().as_bytes();
    let mut out: Vec<u8> = Vec::new();
    let n: usize = b.len();
    let mut i: usize = 0;
    while i < n
        invariant
            i <= n == b@.len(),
            out@ == b@.take(i as int),
        decreases n - i,
    {
        out.push(b[i]);
        i += 1;
        assert(out@ =~= b@.take(i as int));
    }
    assert(b@.take(n as int) =~= b@);
    out
}

fn bytes_of_control(c: char) -> (r: Vec<u8>)
    ensures
        r@ == control_bytes(c),
{
    if 'a' <= c && c <= 'z' {
        let b: u8 = c as u8 - 96;
        assert(upper(c) as u32 == c as u32 - 32);
        let v: Vec<u8> = vec![b];
        assert(v@ =~= control_bytes(c));
        v
    } else if 'A' <= c && c <= 'Z' {
        let b: u8 = c as u8 - 64;
        let v: Vec<u8> = vec![b];
        assert(v@ =~= control_bytes(c));
        v
    } else if '4' <= c && c <= '7' {
        let b: u8 = 0x1c + (c as u8 - 0x34);
        let v: Vec<u8> = vec![b];
        assert(v@ =~= control_bytes(c));
        v
    } else if c == ' ' || c == '@' {
        let v: Vec<u8> = vec![0u8];
        assert(v@ =~= control_bytes(c));
        v
    } else if c == '?' {
        let v: Vec<u8> = vec![0x7fu8];
        assert(v@ =~= control_bytes(c));
        v
    } else {
        utf8_of(c)
    }
}

/// What an optional list of bytes is.
pub open spec fn opt_bytes(o: Option<Vec<u8>>) -> Option<Seq<u8>> {
    match o {
        Some(v) => Some(v@),
        None => None,
    }
}

/// The bytes that a key is sent to a program as.
pub fn key_to_pty_bytes(code: KeyCode, mods: Mods) -> (r: Option<Vec<u8>>)
    ensures
        opt_bytes(r) == key_bytes(code, mods),
{
    let v: Vec<u8> = match code {
        KeyCode::Char(c) => if mods.ctrl {
            bytes_of_control(c)
        } else {
            utf8_of(c)
        },
        KeyCode::Enter => vec![0x0du8],
        KeyCode::Tab => vec![0x09u8],
        KeyCode::Backspace => vec![0x7fu8],
        KeyCode::Esc => vec![0x1bu8],
        KeyCode::Up => vec![0x1bu8, 0x5bu8, 0x41u8],
        KeyCode::Down => vec![0x1bu8, 0x5bu8, 0x42u8],
        KeyCode::Right => vec![0x1bu8, 0x5bu8, 0x43u8],
        KeyCode::Left => vec![0x1bu8, 0x5bu8, 0x44u8],
        _ => {
            return None;
        },
    };
    assert(v@ =~= key_bytes(code, mods)->0);
    Some(v)
}

/// A button of the mouse.
#[derive(Clone, Copy, Debug, PartialEq, Eq, Structural)]
pub enum Button {
    Left,
    Right,
    Middle,
}

/// What the mouse did.
#[derive(Clone, Copy, Debug, PartialEq, Eq, Structural)]
pub enum MouseKind {
    Down(Button),
    Up(Button),
    Drag(Button),
    Moved,
    ScrollUp,
    ScrollDown,
    ScrollLeft,
    ScrollRight,
}

/// What the mouse did, and where on the screen.
#[derive(Clone, Copy, Debug, PartialEq, Eq, Structural)]
pub struct Mouse {
    pub kind: MouseKind,
    pub column: u16,
    pub row: u16,
    pub mods: Mods,
}

/// What is done to a button in a terminal.
#[derive(Clone, Copy, Debug, PartialEq, Eq, Structural)]
pub enum PtyMouseKind {
    Press,
    Release,
    Move,
}

/// A button of the mouse in a terminal; a step of the wheel counts as one.
#[derive(Clone, Copy, Debug, PartialEq, Eq, Structural)]
pub enum PtyButton {
    Left,
    Right,
    Middle,
    WheelUp,
    WheelDown,
    WheelLeft,
    WheelRight,
}

/// What the mouse did in a terminal, from its upper left corner.
#[derive(Clone, Copy, Debug, PartialEq, Eq, Structural)]
pub struct PtyMouse {
    pub kind: PtyMouseKind,
    pub button: PtyButton,
    pub x: u16,
    pub y: u16,
    pub mods: Mods,
}

/// The same button in a terminal.
pub open spec fn pty_button(b: Button) -> PtyButton {
    match b {
        Button::Left => PtyButton::Left,
        Button::Right => PtyButton::Right,
        Button::Middle => PtyButton::Middle,
    }
}

fn button_in_pty(b: Button) -> (r: PtyButton)
    ensures
        r == pty_button(b),
{
    match b {
        Button::Left => PtyButton::Left,
        Button::Right => PtyButton::Right,
        Button::Middle => PtyButton::Middle,
    }
}

/// What is done in a terminal; a move without a button is nothing to it.
pub open spec fn pty_kind(k: MouseKind) -> Option<(PtyMouseKind, PtyButton)> {
    match k {
        MouseKind::Down(b) => Some((PtyMouseKind::Press, pty_button(b))),
        MouseKind::Up(b) => Some((PtyMouseKind::Release, pty_button(b))),
        MouseKind::Drag(b) => Some((PtyMouseKind::Move, pty_button(b))),
        MouseKind::Moved => None,
        MouseKind::ScrollUp => Some((PtyMouseKind::Press, PtyButton::WheelUp)),
        MouseKind::ScrollDown => Some((PtyMouseKind::Press, PtyButton::WheelDown)),
        MouseKind::ScrollLeft => Some((PtyMouseKind::Press, PtyButton::WheelLeft)),
        MouseKind::ScrollRight => Some((PtyMouseKind::Press, PtyButton::WheelRight)),
    }
}

/// The place is in the part of the screen.
pub open spec fn on_grid(m: Mouse, grid: Rect) -> bool {
    grid.x <= m.column < grid.x + grid.width && grid.y <= m.row < grid.y + grid.height
}

/// The event of a terminal that an event of the mouse is, in the terminal's own columns and rows;
/// nothing where the mouse is not on it, or is merely moved.
pub open spec fn pty_event(m: Mouse, grid: Rect) -> Option<PtyMouse> {
    match pty_kind(m.kind) {
        Some((kind, button)) => if on_grid(m, grid) {
            Some(PtyMouse { kind, button, x: (m.column - grid.x) as u16, y: (m.row - grid.y) as u16, mods: m.mods })
        } else {
            None
        },
        None => None,
    }
}

/// What the mouse did in a terminal that is shown on a part of the screen; nothing where it was
/// elsewhere, or was moved without a button.
pub fn mouse_to_pty_event(m: Mouse, grid: Rect) -> (r: Option<PtyMouse>)
    ensures
        r == pty_event(m, grid),
{
    if m.column < grid.x || m.row < grid.y || m.column as u32 >= grid.x as u32 + grid.width as u32 || m.row as u32
        >= grid.y as u32 + grid.height as u32 {
        return None;
    }
    let (kind, button): (PtyMouseKind, PtyButton) = match m.kind {
        MouseKind::Down(b) => (PtyMouseKind::Press, button_in_pty(b)),
        MouseKind::Up(b) => (PtyMouseKind::Release, button_in_pty(b)),
        MouseKind::Drag(b) => (PtyMouseKind::Move, button_in_pty(b)),
        MouseKind::Moved => {
            return None;
        },
        MouseKind::ScrollUp => (PtyMouseKind::Press, PtyButton::WheelUp),
        MouseKind::ScrollDown => (PtyMouseKind::Press, PtyButton::WheelDown),
        MouseKind::ScrollLeft => (PtyMouseKind::Press, PtyButton::WheelLeft),
        MouseKind::ScrollRight => (PtyMouseKind::Press, PtyButton::WheelRight),
    };
    Some(PtyMouse { kind, button, x: m.column - grid.x, y: m.row - grid.y, mods: m.mods })
}

/// A colour of a cell of a terminal.
#[derive(Clone, Copy, Debug, PartialEq, Eq, Structural)]
pub enum CellColor {
    Default,
    Palette(u8),
    True(u8, u8, u8),
}

/// How strongly a cell is drawn.
#[derive(Clone, Copy, Debug, PartialEq, Eq, Structural)]
pub enum Intensity {
    Normal,
    Bold,
    Half,
}

/// How a cell of a terminal is drawn.
#[derive(Clone, Copy, Debug, PartialEq, Eq, Structural)]
pub struct CellLook {
    pub fg: CellColor,
    pub bg: CellColor,
    pub intensity: Intensity,
    pub italic: bool,
    pub underline: bool,
    pub reverse: bool,
    pub strikethrough: bool,
    pub invisible: bool,
    pub blink: bool,
}

/// The colour of the screen for one of a cell.
pub open spec fn screen_color(c: CellColor) -> Option<Color> {
    match c {
        CellColor::Default => None,
        CellColor::True(r, g, b) => Some(Color::Rgb(r, g, b)),
        CellColor::Palette(i) => Some(
            if i == 0 {
                Color::Black
            } else if i == 1 {
                Color::Red
            } else if i == 2 {
                Color::Green
            } else if i == 3 {
                Color::Yellow
            } else if i == 4 {
                Color::Blue
            } else if i == 5 {
                Color::Magenta
            } else if i == 6 {
                Color::Cyan
            } else if i == 7 {
                Color::Gray
            } else if i == 8 {
                Color::DarkGray
            } else if i == 9 {
                Color::LightRed
            } else if i == 10 {
                Color::LightGreen
            } else if i == 11 {
                Color::LightYellow
            } else if i == 12 {
                Color::LightBlue
            } else if i == 13 {
                Color::LightMagenta
            } else if i == 14 {
                Color::LightCyan
            } else if i == 15 {
                Color::White
            } else {
                Color::Indexed(i)
            },
        ),
    }
}

fn color_on_screen(c: CellColor) -> (r: Option<Color>)
    ensures
        r == screen_color(c),
{
    match c {
        CellColor::Default => None,
        CellColor::True(r, g, b) => Some(Color::Rgb(r, g, b)),
        CellColor::Palette(i) => Some(
            match i {
                0 => Color::Black,
                1 => Color::Red,
                2 => Color::Green,
                3 => Color::Yellow,
                4 => Color::Blue,
                5 => Color::Magenta,
                6 => Color::Cyan,
                7 => Color::Gray,
                8 => Color::DarkGray,
                9 => Color::LightRed,
                10 => Color::LightGreen,
                11 => Color::LightYellow,
                12 => Color::LightBlue,
                13 => Color::LightMagenta,
                14 => Color::LightCyan,
                15 => Color::White,
                n => Color::Indexed(n),
            },
        ),
    }
}

/// The style in which a cell of a terminal is drawn on the screen.
pub fn cell_style(a: CellLook) -> (r: Style)
    ensures
        r == (Style {
            fg: screen_color(a.fg),
            bg: screen_color(a.bg),
            bold: a.intensity == Intensity::Bold,
            dim: a.intensity == Intensity::Half,
            italic: a.italic,
            underlined: a.underline,
            reversed: a.reverse,
            crossed_out: a.strikethrough,
            hidden: a.invisible,
            slow_blink: a.blink,
        }),
{
    Style {
        fg: color_on_screen(a.fg),
        bg: color_on_screen(a.bg),
        bold: a.intensity == Intensity::Bold,
        dim: a.intensity == Intensity::Half,
        italic: a.italic,
        underlined: a.underline,
        reversed: a.reverse,
        crossed_out: a.strikethrough,
        hidden: a.invisible,
        slow_blink: a.blink,
        ..plain()
    }
}

/// The first size of a terminal, as rows and columns: that of the screen less what stands around
/// it, or what terminals usually have where the size of the screen is not known.
pub fn first_size(screen: Option<(u16, u16)>) -> (r: (u16, u16))
    ensures
        match screen {
            Some((cols, rows)) => r == (
                if rows >= 7 { (rows - 5) as u16 } else { 2u16 },
                if cols >= 20 { cols } else { 20u16 },
            ),
            None => r == (24u16, 80u16),
        },
{
    match screen {
        Some((cols, rows)) => (if rows >= 7 { rows - 5 } else { 2 }, if cols >= 20 { cols } else { 20 }),
        None => (24, 80),
    }
}

/// The names and texts as values.
pub open spec fn env_values(e: Seq<(Seq<char>, Seq<char>)>) -> Seq<(Seq<char>, JV)> {
    e.map_values(|p: (Seq<char>, Seq<char>)| (p.0, JV::Str(p.1)))
}

/// The environment of a program in a terminal: what the terminal can do stands in place of what
/// the outer one can.
pub open spec fn pty_env(e: Seq<(Seq<char>, Seq<char>)>) -> Seq<(Seq<char>, Seq<char>)> {
    put_once(put_once(e, "TERM"@, "xterm-256color"@), "COLORTERM"@, "truecolor"@)
}

/// The members without those of a name, and with one behind them.
pub open spec fn put_once(e: Seq<(Seq<char>, Seq<char>)>, k: Seq<char>, v: Seq<char>) -> Seq<(Seq<char>, Seq<char>)> {
    without_member(e, k).push((k, v))
}

/// The members without those of a name.
pub open spec fn without_member(e: Seq<(Seq<char>, Seq<char>)>, k: Seq<char>) -> Seq<(Seq<char>, Seq<char>)>
    decreases e.len(),
{
    if e.len() == 0 {
        Seq::empty()
    } else if e.last().0 == k {
        without_member(e.drop_last(), k)
    } else {
        without_member(e.drop_last(), k).push(e.last())
    }
}

/// The names and texts of the environment.
pub open spec fn env_v(e: Seq<(String, String)>) -> Seq<(Seq<char>, Seq<char>)> {
    e.map_values(|p: (String, String)| (p.0@, p.1@))
}

fn put_in_env(e: &Vec<(String, String)>, k: &str, v: &str) -> (r: Vec<(String, String)>)
    ensures
        env_v(r@) == put_once(env_v(e@), k@, v@),
{
    let ghost all = env_v(e@);
    let mut out: Vec<(String, String)> = Vec::new();
    let mut i: usize = 0;
    assert(env_v(out@) =~= without_member(all.take(0), k@));
    while i < e.len()
        invariant
            i <= e@.len(),
            all == env_v(e@),
            env_v(out@) == without_member(all.take(i as int), k@),
        decreases e@.len() - i,
    {
        let ghost t = all.take(i + 1);
        assert(t.drop_last() =~= all.take(i as int));
        assert(t.last() == (e@[i as int].0@, e@[i as int].1@));
        if !same(e[i].0.as_str(), k) {
            let ghost o = env_v(out@);
            out.push((e[i].0.clone(), e[i].1.clone()));
            assert(env_v(out@) =~= o.push(t.last()));
        }
        i += 1;
    }
    assert(all.take(all.len() as int) =~= all);
    let ghost o = env_v(out@);
    out.push((own(k), own(v)));
    assert(env_v(out@) =~= o.push((k@, v@)));
    out
}

fn env_object(e: &Vec<(String, String)>) -> (r: Json)
    ensures
        r@ == JV::Obj(env_values(env_v(e@))),
{
    let ghost all = env_values(env_v(e@));
    let mut out: Json = Json::obj();
    let mut i: usize = 0;
    assert(out@->Obj_0 =~= all.take(0));
    while i < e.len()
        invariant
            i <= e@.len(),
            all == env_values(env_v(e@)),
            out@ == JV::Obj(all.take(i as int)),
        decreases e@.len() - i,
    {
        out = out.with(e[i].0.as_str(), Json::text(e[i].1.as_str()));
        i += 1;
        assert(out@->Obj_0 =~= all.take(i as int));
    }
    assert(all.take(all.len() as int) =~= all);
    out
}

/// The request for a terminal with a program.
pub open spec fn spawn_request(
    argv: Seq<Seq<char>>,
    rows: u16,
    cols: u16,
    cwd: Option<Seq<char>>,
    env: Seq<(Seq<char>, Seq<char>)>,
) -> JV {
    JV::Obj(
        seq![
            ("type"@, JV::Str("pty_spawn"@)),
            ("argv"@, JV::Arr(text_values(argv))),
            ("rows"@, JV::Int(rows as int)),
            ("cols"@, JV::Int(cols as int)),
            (
                "cwd"@,
                match cwd {
                    Some(d) => JV::Str(d),
                    None => JV::Null,
                },
            ),
            ("env"@, JV::Obj(env_values(pty_env(env)))),
        ],
    )
}

/// Makes the request for a terminal with a program: it starts in the directory of this program
/// and with its environment, but for what the terminal can do.
pub fn pty_request(argv: &Vec<String>, rows: u16, cols: u16, cwd: Option<String>, env: &Vec<(String, String)>) -> (r: Json)
    ensures
        r@ == spawn_request(strs(argv@), rows, cols, crate::loads::opt_text(cwd), env_v(env@)),
{
    let e: Vec<(String, String)> = put_in_env(&put_in_env(env, "TERM", "xterm-256color"), "COLORTERM", "truecolor");
    let dir: Json = match cwd {
        Some(d) => Json::Str(d),
        None => Json::Null,
    };
    let r: Json = Json::obj().with("type", Json::text("pty_spawn")).with(
        "argv",
        crate::types::arr(crate::verbs::values_of(argv)),
    ).with("rows", Json::Int(rows as i64)).with("cols", Json::Int(cols as i64)).with("cwd", dir).with(
        "env",
        env_object(&e),
    );
    assert(r@->Obj_0 =~= spawn_request(
        strs(argv@),
        rows,
        cols,
        crate::loads::opt_text(cwd),
        env_v(env@),
    )->Obj_0);
    r
}

/// Reads what the engine answers to the request for a terminal.
pub fn pty_ack(v: &Json) -> (r: Result<(), String>)
    ensures
        r is Ok <==> v@.flag("ok"@),
        match r {
            Ok(_) => true,
            Err(e) => e@ == v@.str_or("error"@, "pty_spawn refused"@),
        },
{
    if v.flag("ok") {
        Ok(())
    } else {
        Err(own(v.str_or("error", "pty_spawn refused")))
    }
}

impl App {
    /// The terminal at the cursor.
    pub open spec fn pty(self) -> Option<PtyInfo> {
        if self.terms.sel < self.terms.ptys@.len() { Some(self.terms.ptys@[self.terms.sel as int]) } else { None }
    }

    pub fn cur_pty(&self) -> (r: Option<PtyInfo>)
        ensures
            r == self.pty(),
    {
        if self.terms.sel < self.terms.ptys.len() {
            Some(self.terms.ptys[self.terms.sel])
        } else {
            None
        }
    }

    /// The state with another terminal at the cursor.
    pub open spec fn with_pty(self, i: usize) -> App {
        App { terms: (Terms { sel: i, ..self.terms }), ..self }
    }

    /// The terminal behind that at the cursor; behind the last is the first.
    pub open spec fn pty_after(self) -> int {
        (self.terms.sel + 1) % (self.terms.ptys@.len() as int)
    }

    /// The terminal before that at the cursor; before the first is the last.
    pub open spec fn pty_before(self) -> int {
        (self.terms.sel + self.terms.ptys@.len() - 1) % (self.terms.ptys@.len() as int)
    }

    /// What going from the terminal at the cursor to another changes. One whose program has ended
    /// is closed when it is left.
    pub open spec fn pty_step_v(self, to: int, post: App) -> bool {
        let i = self.terms.sel as int;
        if to != i && (self.pty() matches Some(p) && p.eof) {
            &&& post == (App {
                terms: (Terms {
                    ptys: post.terms.ptys,
                    sel: (if to > i { to - 1 } else { to }) as usize,
                    ..self.terms
                }),
                todo: post.todo,
                ..self
            })
            &&& post.terms.ptys@ == self.terms.ptys@.remove(i)
            &&& post.plan() == seq![StepV::ClosePty(i)] + self.plan()
        } else {
            post == self.with_pty(to as usize)
        }
    }

    fn pty_step(&mut self, to: usize)
        requires
            to < old(self).terms.ptys@.len(),
        ensures
            old(self).pty_step_v(to as int, *final(self)),
    {
        let i: usize = self.terms.sel;
        let ended: bool = match self.cur_pty() {
            Some(p) => p.eof,
            None => false,
        };
        if ended && to != i {
            self.drop_pty();
            self.terms.sel = if to > i { to - 1 } else { to };
        } else {
            self.terms.sel = to;
        }
    }

    /// What going to the next terminal changes.
    pub open spec fn pty_next_v(self, post: App) -> bool {
        if self.terms.ptys@.len() > 0 { self.pty_step_v(self.pty_after(), post) } else { post == self }
    }

    /// What going to the terminal before changes.
    pub open spec fn pty_prev_v(self, post: App) -> bool {
        if self.terms.ptys@.len() > 0 { self.pty_step_v(self.pty_before(), post) } else { post == self }
    }

    /// Goes to the next terminal; behind the last is the first.
    pub fn pty_next(&mut self)
        ensures
            old(self).pty_next_v(*final(self)),
    {
        let n: usize = self.terms.ptys.len();
        if n > 0 {
            let i: u128 = (self.terms.sel as u128 + 1) % (n as u128);
            self.pty_step(i as usize);
        }
    }

    /// Goes to the terminal before; before the first is the last.
    pub fn pty_prev(&mut self)
        ensures
            old(self).pty_prev_v(*final(self)),
    {
        let n: usize = self.terms.ptys.len();
        if n > 0 {
            let i: u128 = (self.terms.sel as u128 + n as u128 - 1) % (n as u128);
            self.pty_step(i as usize);
        }
    }

    /// What closing the terminal at the cursor changes.
    pub open spec fn pty_kill_v(self, post: App) -> bool {
        let n = self.terms.ptys@.len() as int;
        let i = self.terms.sel as int;
        if i >= n {
            post == self
        } else {
            &&& post == (App {
                ui: (Ui {
                    status: post.ui.status,
                    focus: if n == 1 { Pane::Sessions } else { self.ui.focus },
                    ..self.ui
                }),
                terms: (Terms {
                    ptys: post.terms.ptys,
                    sel: (if n == 1 { 0 } else if i >= n - 1 { n - 2 } else { i }) as usize,
                    ..self.terms
                }),
                shown: if n == 1 { self.without_lens().shown } else { self.shown },
                todo: post.todo,
                ..self
            })
            &&& post.terms.ptys@ == self.terms.ptys@.remove(i)
            &&& post.ui.status@ == (if n == 1 {
                "PTY killed (no more open)"@
            } else {
                "PTY killed · "@ + dec(n - 1) + " remain"@
            })
            &&& post.plan() == seq![StepV::ClosePty(i)] + (if n == 1 { self.lens_steps() } else { Seq::empty() })
                + self.plan()
        }
    }

    /// Takes the terminal at the cursor off the list and closes it.
    fn drop_pty(&mut self)
        requires
            old(self).terms.sel < old(self).terms.ptys@.len(),
        ensures
            *final(self) == (App {
                terms: (Terms { ptys: final(self).terms.ptys, ..old(self).terms }),
                todo: final(self).todo,
                ..*old(self)
            }),
            final(self).terms.ptys@ == old(self).terms.ptys@.remove(old(self).terms.sel as int),
            final(self).plan() == seq![StepV::ClosePty(old(self).terms.sel as int)] + old(self).plan(),
    {
        let i: usize = self.terms.sel;
        let _ = self.terms.ptys.remove(i);
        self.first(Step::ClosePty(i));
    }

    /// Closes the only terminal.
    fn kill_last(&mut self)
        requires
            old(self).terms.ptys@.len() == 1,
            old(self).terms.sel == 0,
        ensures
            old(self).pty_kill_v(*final(self)),
    {
        let ghost orig = *self;
        self.drop_lens();
        self.drop_pty();
        assert(self.plan() =~= seq![StepV::ClosePty(0)] + orig.lens_steps() + orig.plan());
        self.ui.focus = Pane::Sessions;
        self.say("PTY killed (no more open)");
    }

    /// Closes the terminal at the cursor; the cursor goes to the next one.
    pub fn pty_kill(&mut self)
        ensures
            old(self).pty_kill_v(*final(self)),
    {
        if self.terms.sel >= self.terms.ptys.len() {
            return;
        }
        if self.terms.ptys.len() == 1 {
            self.kill_last();
            return;
        }
        let ghost orig = *self;
        self.drop_pty();
        let n: usize = self.terms.ptys.len();
        assert(self.plan() =~= seq![StepV::ClosePty(orig.terms.sel as int)] + Seq::<StepV>::empty() + orig.plan());
        if self.terms.sel >= n {
            self.terms.sel = n - 1;
        }
        let s: String = own("PTY killed · ").concat(decimal(n as u64).as_str()).concat(" remain");
        self.say(s.as_str());
    }

    /// The command with the path of this program in place of its name.
    pub open spec fn resolved(self, argv: Seq<Seq<char>>) -> Seq<Seq<char>> {
        if argv.len() > 0 && argv[0] == "sarun"@ { argv.update(0, self.env.exe@) } else { argv }
    }

    /// What opening a terminal with a program changes at first.
    pub open spec fn open_pty_v(self, argv: Seq<Seq<char>>, post: App) -> bool {
        if argv.len() == 0 {
            self.says(post, "pty: empty command"@)
        } else {
            &&& post == (App { todo: post.todo, ..self })
            &&& post.plan() == seq![StepV::OpenPty(self.resolved(argv))] + self.plan()
        }
    }

    /// Opens a terminal with a program.
    pub fn open_pty(&mut self, argv: Vec<String>)
        ensures
            old(self).open_pty_v(strs(argv@), *final(self)),
    {
        assert(argv@.len() == strs(argv@).len());
        if argv.len() == 0 {
            self.say("pty: empty command");
            return;
        }
        let mut v: Vec<String> = argv;
        if same(v[0].as_str(), "sarun") {
            let exe: String = self.env.exe.clone();
            let ghost was = v@;
            v.set(0, exe);
            assert(strs(v@) =~= strs(was).update(0, self.env.exe@));
        }
        self.first(Step::OpenPty { argv: v });
    }

    /// What came of opening a terminal changes.
    pub open spec fn pty_opened_v(self, r: Result<(u16, u16), String>, post: App) -> bool {
        match r {
            Ok((rows, cols)) => {
                let n = self.terms.ptys@.len() as int;
                &&& post == (App {
                    ui: (Ui { status: post.ui.status, focus: Pane::Pty, ..self.ui }),
                    terms: (Terms { ptys: post.terms.ptys, sel: n as usize, in_right: false, ..self.terms }),
                    todo: post.todo,
                    ..self.without_lens()
                })
                &&& post.plan() == self.lens_steps() + self.plan()
                &&& post.terms.ptys@ == self.terms.ptys@.push(PtyInfo { eof: false, rows, cols })
                &&& post.ui.status@ == "PTY "@ + dec(n + 1) + "/"@ + dec(n + 1) + " · F2/F3 cycle · F8 kill · F12 detach"@
            },
            Err(e) => self.says(post, "pty: "@ + e@),
        }
    }

    /// Takes in what came of opening a terminal: its size, as rows and columns. It gets the screen
    /// to itself.
    pub fn pty_opened(&mut self, r: Result<(u16, u16), String>)
        ensures
            old(self).pty_opened_v(r, *final(self)),
    {
        match r {
            Ok((rows, cols)) => {
                self.drop_lens();
                self.terms.in_right = false;
                self.terms.ptys.push(PtyInfo { eof: false, rows, cols });
                let n: usize = self.terms.ptys.len();
                self.terms.sel = n - 1;
                self.ui.focus = Pane::Pty;
                let d: String = decimal(n as u64);
                let s: String = own("PTY ").concat(d.as_str()).concat("/").concat(d.as_str()).concat(
                    " · F2/F3 cycle · F8 kill · F12 detach",
                );
                self.say(s.as_str());
            },
            Err(e) => {
                let s: String = own("pty: ").concat(e.as_str());
                self.say(s.as_str());
            },
        }
    }

    /// What the end of the program in a terminal changes.
    pub open spec fn pty_ended_v(self, i: usize, post: App) -> bool {
        if i < self.terms.ptys@.len() {
            &&& post == (App { terms: (Terms { ptys: post.terms.ptys, ..self.terms }), ..self })
            &&& post.terms.ptys@ == self.terms.ptys@.update(
                i as int,
                (PtyInfo { eof: true, ..self.terms.ptys@[i as int] }),
            )
        } else {
            post == self
        }
    }

    /// The program in a terminal has ended.
    pub fn pty_ended(&mut self, i: usize)
        ensures
            old(self).pty_ended_v(i, *final(self)),
    {
        if i < self.terms.ptys.len() {
            let p: PtyInfo = self.terms.ptys[i];
            self.terms.ptys.set(i, PtyInfo { eof: true, rows: p.rows, cols: p.cols });
        }
    }

    /// The size that the terminal at the cursor gets on a screen, as rows and columns; nothing
    /// where it is not shown.
    pub open spec fn pty_size(self, cols: u16, rows: u16) -> Option<(u16, u16)> {
        let body = if rows >= 6 { rows - 4 } else { 2int };
        let h = if body - 1 >= 2 { body - 1 } else { 2 };
        let right = cols - list_width(cols as int);
        if self.ui.focus == Pane::Pty {
            Some((h as u16, if cols >= 20 { cols } else { 20 }))
        } else if self.terms.in_right {
            Some((h as u16, if right >= 20 { right as u16 } else { 20 }))
        } else {
            None
        }
    }

    /// What fitting the terminal at the cursor to the screen changes.
    pub open spec fn fit_v(self, cols: u16, rows: u16, post: App) -> bool {
        match (self.pty(), self.pty_size(cols, rows)) {
            (Some(p), Some((h, w))) => if p.rows == h && p.cols == w {
                post == self
            } else {
                &&& post == (App {
                    terms: (Terms { ptys: post.terms.ptys, ..self.terms }),
                    todo: post.todo,
                    ..self
                })
                &&& post.terms.ptys@ == self.terms.ptys@.update(
                    self.terms.sel as int,
                    (PtyInfo { rows: h, cols: w, ..p }),
                )
                &&& post.plan() == seq![StepV::Resize(h, w)] + self.plan()
            },
            _ => post == self,
        }
    }

    /// Fits the terminal at the cursor to the screen.
    pub fn fit_active_pty(&mut self, term_cols: u16, term_rows: u16)
        ensures
            old(self).fit_v(term_cols, term_rows, *final(self)),
    {
        let body: u16 = if term_rows >= 6 { term_rows - 4 } else { 2 };
        let h: u16 = if body >= 3 { body - 1 } else { 2 };
        let w: u16 = if self.ui.focus == Pane::Pty {
            if term_cols >= 20 { term_cols } else { 20 }
        } else if self.terms.in_right {
            let list: u16 = ((term_cols as u32 * 45 + 50) / 100) as u16;
            let right: u16 = term_cols - list;
            if right >= 20 { right } else { 20 }
        } else {
            return;
        };
        match self.cur_pty() {
            Some(p) => {
                if p.rows != h || p.cols != w {
                    let i: usize = self.terms.sel;
                    self.terms.ptys.set(i, PtyInfo { eof: p.eof, rows: h, cols: w });
                    self.first(Step::Resize(h, w));
                }
            },
            None => {},
        }
    }

    /// A terminal is on the screen.
    pub open spec fn pty_on_screen(self) -> bool {
        self.terms.ptys@.len() > 0 && (self.ui.focus == Pane::Pty || self.terms.in_right)
    }
}

/// The part of a screen that a terminal gets which has all between the bars, or what is beside the
/// list: all of that but the line of its title.
pub open spec fn grid_v(full: bool, cols: int, rows: int) -> (int, int, int, int) {
    let x = if full { 0 } else { list_width(cols) };
    (x, 2, cols - x, rows - 5)
}

/// The part of the screen on which the terminal at the cursor is shown; nothing where it is not.
/// On a screen of less than seven lines only that it lies on it is stated.
pub fn pty_grid_rect(app: &App, term_cols: u16, term_rows: u16) -> (r: Option<Rect>)
    ensures
        r is Some <==> app.pty_on_screen(),
        match r {
            Some(g) => {
                &&& g.within(Rect { x: 0, y: 0, width: term_cols, height: term_rows })
                &&& 7 <= term_rows ==> (g.x as int, g.y as int, g.width as int, g.height as int) == grid_v(
                    app.ui.focus == Pane::Pty,
                    term_cols as int,
                    term_rows as int,
                )
            },
            None => true,
        },
{
    if app.terms.ptys.len() == 0 {
        return None;
    }
    let full: bool = app.ui.focus == Pane::Pty;
    if !full && !app.terms.in_right {
        return None;
    }
    let all: Rect = Rect { x: 0, y: 0, width: term_cols, height: term_rows };
    let rows: Vec<Rect> = divide_rows(all);
    let body: Rect = rows[1];
    assert(rows@[1].within(all));
    let area: Rect = if full {
        body
    } else {
        divide_columns(body).1
    };
    let parts: (Rect, Rect) = divide_below(area, 1, 1);
    Some(parts.1)
}

/// The part of the screen that events of the mouse are held against is where the terminal is drawn.
pub proof fn law_grid_is_where_the_terminal_is_drawn(a: App, p: Parts, cols: u16, rows: u16)
    requires
        7 <= rows,
        a.pty_on_screen(),
        a.ui.focus == Pane::Pty || a.has_list(),
        divided(a, p, Rect { x: 0, y: 0, width: cols, height: rows }),
    ensures
        (p.bottom.x as int, p.bottom.y as int, p.bottom.width as int, p.bottom.height as int) == grid_v(
            a.ui.focus == Pane::Pty,
            cols as int,
            rows as int,
        ),
{
    let all = seq![p.menubar, p.body, p.cmdline, p.fkeybar, p.status];
    assert(all[1].within(Rect { x: 0, y: 0, width: cols, height: rows }));
}

/// A terminal that has the size it is fitted to fills the part of the screen that it is drawn on,
/// unless that is less than the least that a terminal gets.
pub proof fn law_fitted_terminal_fills_its_part(a: App, cols: u16, rows: u16)
    requires
        7 <= rows,
        a.pty_on_screen(),
        20 <= grid_v(a.ui.focus == Pane::Pty, cols as int, rows as int).2,
    ensures
        ({
            let g = grid_v(a.ui.focus == Pane::Pty, cols as int, rows as int);
            a.pty_size(cols, rows) == Some((g.3 as u16, g.2 as u16))
        }),
{
}

/// Going to the next terminal and back is no change, where the programs in both still run.
pub proof fn law_previous_undoes_next(a: App, b: App, c: App)
    requires
        a.pty() matches Some(p) && !p.eof,
        b.pty() matches Some(p) && !p.eof,
        (a.pty_next_v(b) && b.pty_prev_v(c)) || (a.pty_prev_v(b) && b.pty_next_v(c)),
    ensures
        c == a,
{
    lemma_round(a);
}

/// A terminal whose program has ended is closed when it is left, and the cursor is on the one that
/// was gone to.
pub proof fn law_ended_terminals_are_dropped(a: App, b: App)
    requires
        a.pty() matches Some(p) && p.eof,
        a.terms.ptys@.len() > 1,
        a.pty_next_v(b) || a.pty_prev_v(b),
    ensures
        b.terms.ptys@ == a.terms.ptys@.remove(a.terms.sel as int),
        b.pty() == Some(a.terms.ptys@[a.pty_after()]) || b.pty() == Some(a.terms.ptys@[a.pty_before()]),
        b.plan() == seq![StepV::ClosePty(a.terms.sel as int)] + a.plan(),
{
    let n = a.terms.ptys@.len() as int;
    let i = a.terms.sel as int;
    assert(a.terms.ptys@.len() == a.terms.ptys.len());
    assert((i + 1) % n == if i + 1 < n { i + 1 } else { 0 }) by (nonlinear_arith)
        requires
            0 <= i < n,
            n > 1,
    ;
    assert((i + n - 1) % n == if i > 0 { i - 1 } else { n - 1 }) by (nonlinear_arith)
        requires
            0 <= i < n,
            n > 1,
    ;
}

proof fn lemma_round(a: App)
    requires
        a.terms.sel < a.terms.ptys@.len(),
    ensures
        0 <= a.pty_after() < a.terms.ptys@.len(),
        0 <= a.pty_before() < a.terms.ptys@.len(),
        a.with_pty(a.pty_after() as usize).pty_before() == a.terms.sel,
        a.with_pty(a.pty_before() as usize).pty_after() == a.terms.sel,
{
    let n = a.terms.ptys@.len() as int;
    let i = a.terms.sel as int;
    assert(a.terms.ptys@.len() == a.terms.ptys.len());
    if i + 1 < n {
        assert((i + 1) % n == i + 1) by (nonlinear_arith)
            requires
                0 <= i,
                i + 1 < n,
        ;
        assert((i + 1 + n - 1) % n == i) by (nonlinear_arith)
            requires
                0 <= i < n,
        ;
    } else {
        assert(n % n == 0) by (nonlinear_arith)
            requires
                n > 0,
        ;
        assert((0 + n - 1) % n == n - 1) by (nonlinear_arith)
            requires
                n > 0,
        ;
    }
    if i > 0 {
        assert((i + n - 1) % n == i - 1) by (nonlinear_arith)
            requires
                0 < i < n,
        ;
        assert((i - 1 + 1) % n == i) by (nonlinear_arith)
            requires
                0 <= i < n,
        ;
    } else {
        assert((0 + n - 1) % n == n - 1) by (nonlinear_arith)
            requires
                n > 0,
        ;
        assert((n - 1 + 1) % n == 0) by (nonlinear_arith)
            requires
                n > 0,
        ;
    }
}

/// Where a cell of a terminal's screen stands in a part of the screen: the screen is the last
/// `rows` of `total` lines; what does not fit is not shown.
pub open spec fn cell_place(line: int, column: int, total: int, rows: int, cols: int, area: Rect) -> Option<(int, int)> {
    let first = if total >= rows { total - rows } else { 0 };
    if line < first || line - first >= rows || line - first >= area.height || column >= cols || column >= area.width {
        None
    } else {
        Some((area.x + column, area.y + line - first))
    }
}

/// Where a cell of a terminal's screen stands in a part of the screen.
pub fn place_cell(line: usize, column: usize, total: usize, rows: usize, cols: usize, area: Rect) -> (r: Option<(u16, u16)>)
    requires
        area.fits(),
    ensures
        match r {
            Some((x, y)) => cell_place(line as int, column as int, total as int, rows as int, cols as int, area) == Some(
                (x as int, y as int),
            ),
            None => cell_place(line as int, column as int, total as int, rows as int, cols as int, area) is None,
        },
{
    let first: usize = if total >= rows { total - rows } else { 0 };
    if line < first || column >= cols || column >= area.width as usize {
        return None;
    }
    let row: usize = line - first;
    if row >= rows || row >= area.height as usize {
        None
    } else {
        Some((area.x + column as u16, area.y + row as u16))
    }
}

} // verus!
