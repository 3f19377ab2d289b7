//! The bars of the screen: the menu, the command line, the function keys and the status.

use vstd::prelude::*;

use crate::app::App;
use crate::keys::{menubar_chips, view_of_pane};
#[allow(unused_imports)]
use crate::keys::{chips_v, pane_name};
use crate::style::{bold, cursor, dim, fg, fg_bg, fg_bg_bold, fg_bold, fg_dim, styled, Color, Line, Style};
#[allow(unused_imports)]
use crate::style::{styled_line, LineV};
use crate::text::{decimal, own, pad_right, same};
#[allow(unused_imports)]
use crate::text::{dec, padr};
#[allow(unused_imports)]
use crate::types::{expr_of, slices};
use crate::types::{clauses_expr, Pane, ViewFilter};

verus! {

/// The style of a name on the menu bar.
#[verifier::allow_in_spec]
pub fn chip_style(on: bool, at_cursor: bool) -> (r: Style)
    returns
        (if at_cursor {
            fg_bg_bold(Color::Black, Color::Yellow)
        } else if on {
            Style { reversed: true, ..fg_bold(Color::Yellow) }
        } else {
            bold()
        }),
{
    if at_cursor {
        fg_bg_bold(Color::Black, Color::Yellow)
    } else if on {
        Style { reversed: true, ..fg_bold(Color::Yellow) }
    } else {
        bold()
    }
}

impl App {
    /// The first `n` names on the menu bar.
    pub open spec fn chips_line(self, n: int) -> LineV
        decreases n,
    {
        if n <= 0 {
            LineV::new()
        } else {
            let (key, label) = self.chips()[n - 1];
            let on = pane_name(self.ui.focus).0 == key;
            let at = self.ui.menu_nav && self.ui.menu_sel == n - 1;
            self.chips_line(n - 1).sp("  "@ + label, chip_style(on, at)).sp(
                " ("@ + seq![key] + ") "@,
                fg(if on || at { Color::Yellow } else { Color::DarkGray }),
            )
        }
    }

    /// The menu bar.
    pub open spec fn menubar_line(self) -> LineV {
        let l = self.chips_line(self.chips().len() as int);
        if self.ui.menu_nav {
            l.sp("   ←/→ move · Enter pick · Esc cancel"@, fg_dim(Color::Yellow))
        } else {
            l
        }
    }
}

/// The menu bar: the panes that can be gone to, and their letters.
pub fn menubar_spans(app: &App) -> (r: Line)
    ensures
        r@ == app.menubar_line(),
{
    let active: char = match view_of_pane(app.ui.focus) {
        Some((k, _, _)) => k,
        None => ' ',
    };
    let chips: Vec<(char, &'static str)> = menubar_chips(app);
    assert(chips_v(chips@).len() == chips@.len());
    let mut l: Line = Line::new();
    let mut i: usize = 0;
    while i < chips.len()
        invariant
            i <= chips@.len(),
            active == pane_name(app.ui.focus).0,
            chips_v(chips@) == app.chips(),
            l@ == app.chips_line(i as int),
        decreases chips@.len() - i,
    {
        assert(chips_v(chips@)[i as int] == (chips@[i as int].0, chips@[i as int].1@));
        let (key, label): (char, &str) = chips[i];
        let on: bool = active == key;
        let at: bool = app.ui.menu_nav && app.ui.menu_sel == i;
        let mut k: String = String::new();
        k.push(key);
        assert(k@ =~= seq![key]);
        l = l.add(own("  ").concat(label), chip_style(on, at)).add(
            own(" (").concat(k.as_str()).concat(") "),
            fg(if on || at { Color::Yellow } else { Color::DarkGray }),
        );
        i += 1;
    }
    if app.ui.menu_nav {
        l.sp("   ←/→ move · Enter pick · Esc cancel", fg_dim(Color::Yellow))
    } else {
        l
    }
}

impl App {
    /// The command line: the filter of the pane, where one is on.
    pub open spec fn cmdline_line(self) -> LineV {
        let f = self.filter(pane_name(self.ui.focus).2);
        let prompt = styled_line("$ "@, fg_bold(Color::Cyan));
        if f@.is_active() {
            prompt.sp("filter "@, fg_bold(Color::Yellow)).sp(expr_of(f@.clauses), fg(Color::Yellow)).sp(
                "  ('/' clears)"@,
                dim(),
            )
        } else {
            prompt.sp("(idle — '/' filter · F4 / m row actions · F-keys below)"@, dim())
        }
    }
}

/// The command line.
pub fn cmdline_spans(app: &App) -> (r: Line)
    ensures
        r@ == app.cmdline_line(),
{
    let prompt: Line = styled("$ ", fg_bold(Color::Cyan));
    match view_of_pane(app.ui.focus) {
        Some((_, _, v)) => {
            let f: &ViewFilter = app.view_filter(v);
            assert(f@.clauses.len() == f.clauses@.len());
            if f.on && f.clauses.len() > 0 {
                let e: String = clauses_expr(&f.clauses);
                return prompt.sp("filter ", fg_bold(Color::Yellow)).add(e, fg(Color::Yellow)).sp("  ('/' clears)", dim());
            }
        },
        None => {},
    }
    prompt.sp("(idle — '/' filter · F4 / m row actions · F-keys below)", dim())
}

impl App {
    /// What each function key does here, `·` where it does nothing.
    pub open spec fn fkeys(self) -> Seq<Seq<char>> {
        let p = self.ui.focus;
        let pty = p == Pane::Pty;
        let edits = p == Pane::Hunks || p == Pane::Changes;
        let menu = p == Pane::Sessions || edits || p == Pane::Rules || pty || p == Pane::ApiLogs;
        seq![
            "Help"@,
            if pty { "PtyNext"@ } else { "Pty+"@ },
            if pty { "PtyPrev"@ } else { "Tab"@ },
            if menu { "Actions"@ } else { "·"@ },
            if edits { "Apply"@ } else { "·"@ },
            if p == Pane::Sessions { "Rename"@ } else { "·"@ },
            if pty {
                "PtyNew"@
            } else if p == Pane::Sessions {
                "Image+"@
            } else if p == Pane::Rules {
                "NewRule"@
            } else {
                "·"@
            },
            if pty {
                "PtyKill"@
            } else if edits {
                "Discard"@
            } else if p == Pane::Rules {
                "DelRule"@
            } else if p == Pane::Sessions {
                "Delete"@
            } else {
                "·"@
            },
            if pty { "·"@ } else { "Menu"@ },
            "Quit"@,
            if pty {
                "Embed"@
            } else if self.terms.ptys@.len() == 0 {
                "·"@
            } else if self.terms.in_right {
                "Solo"@
            } else {
                "Split"@
            },
        ]
    }
}

/// What each function key does here, `·` where it does nothing.
pub fn fkey_labels(app: &App) -> (r: Vec<&'static str>)
    ensures
        slices(r@) == app.fkeys(),
{
    let p: Pane = app.ui.focus;
    let pty: bool = p == Pane::Pty;
    let rules: bool = p == Pane::Rules;
    let boxes: bool = p == Pane::Sessions;
    let edits: bool = p == Pane::Hunks || p == Pane::Changes;
    let menu: bool = boxes || edits || rules || pty || p == Pane::ApiLogs;
    let f7: &'static str = if pty {
        "PtyNew"
    } else if boxes {
        "Image+"
    } else if rules {
        "NewRule"
    } else {
        "·"
    };
    let f8: &'static str = if pty {
        "PtyKill"
    } else if edits {
        "Discard"
    } else if rules {
        "DelRule"
    } else if boxes {
        "Delete"
    } else {
        "·"
    };
    let f11: &'static str = if pty {
        "Embed"
    } else if app.terms.ptys.len() == 0 {
        "·"
    } else if app.terms.in_right {
        "Solo"
    } else {
        "Split"
    };
    let r: Vec<&'static str> = vec![
        "Help",
        if pty { "PtyNext" } else { "Pty+" },
        if pty { "PtyPrev" } else { "Tab" },
        if menu { "Actions" } else { "·" },
        if edits { "Apply" } else { "·" },
        if boxes { "Rename" } else { "·" },
        f7,
        f8,
        if pty { "·" } else { "Menu" },
        "Quit",
        f11,
    ];
    assert(slices(r@) =~= app.fkeys());
    r
}

/// The first `n` function keys.
pub open spec fn fkeys_line(labels: Seq<Seq<char>>, n: int) -> LineV
    decreases n,
{
    if n <= 0 {
        LineV::new()
    } else {
        let label = labels[n - 1];
        fkeys_line(labels, n - 1).sp(dec(n) + " "@, fg_bold(Color::White)).sp(
            padr(label, if n == 11 { 7 } else { 8 }),
            if label == "·"@ { dim() } else { cursor() },
        ).raw(" "@)
    }
}

/// The bar of the function keys.
pub fn fkeybar_spans(app: &App) -> (r: Line)
    ensures
        r@ == fkeys_line(app.fkeys(), app.fkeys().len() as int),
{
    let labels: Vec<&'static str> = fkey_labels(app);
    let ghost all = app.fkeys();
    assert(all.len() == labels@.len());
    let mut l: Line = Line::new();
    let mut i: usize = 0;
    while i < labels.len()
        invariant
            i <= labels@.len() == all.len(),
            all == slices(labels@),
            l@ == fkeys_line(all, i as int),
        decreases labels@.len() - i,
    {
        assert(all[i as int] == labels@[i as int]@);
        let label: &str = labels[i];
        l = l.add(decimal(i as u64 + 1).concat(" "), fg_bold(Color::White)).add(
            pad_right(label, if i == 10 { 7 } else { 8 }),
            if same(label, "·") { dim() } else { cursor() },
        ).raw(" ");
        i += 1;
    }
    l
}

impl App {
    /// The status line: a question of the engine, or the name that is being typed, or the last
    /// message.
    pub open spec fn status_line(self) -> LineV {
        match self.jobs.prompt {
            Some(p) => styled_line(
                "["@ + p@.str_or("box"@, ""@) + "] connection: "@ + p@.str_or("scheme"@, ""@) + "://"@ + p@.str_or(
                    "host"@,
                    ""@,
                ) + ":"@ + dec(p@.u64_or("port"@, 0)) + "  [y]es once  [n]o once  [a]llow+save  [d]eny+save"@,
                fg_bg_bold(Color::Black, Color::Yellow),
            ),
            None => styled_line(
                match self.ui.renaming {
                    Some(buf) => "rename -> "@ + buf@ + "_  (Enter to commit, Esc to cancel)"@,
                    None => self.ui.status@,
                },
                fg_bg(Color::Black, Color::Gray),
            ),
        }
    }
}

/// The status line.
pub fn status_spans(app: &App) -> (r: Line)
    ensures
        r@ == app.status_line(),
{
    match &app.jobs.prompt {
        Some(p) => {
            let s: String = own("[").concat(p.str_or("box", "")).concat("] connection: ").concat(
                p.str_or("scheme", ""),
            ).concat("://").concat(p.str_or("host", "")).concat(":").concat(decimal(p.u64_or("port", 0)).as_str()).concat(
                "  [y]es once  [n]o once  [a]llow+save  [d]eny+save",
            );
            styled(s.as_str(), fg_bg_bold(Color::Black, Color::Yellow))
        },
        None => match &app.ui.renaming {
            Some(buf) => {
                let s: String = own("rename -> ").concat(buf.as_str()).concat("_  (Enter to commit, Esc to cancel)");
                styled(s.as_str(), fg_bg(Color::Black, Color::Gray))
            },
            None => styled(app.ui.status.as_str(), fg_bg(Color::Black, Color::Gray)),
        },
    }
}

} // verus!
