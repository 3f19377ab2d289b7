//! The changes of a box: their tree, and the diff of the one at the cursor.

use vstd::prelude::*;

use crate::app::App;
use crate::fmt::{fmt_bytes, struct_color};
#[allow(unused_imports)]
use crate::fmt::{bytes_text, tag_color};
use crate::json::Json;
#[allow(unused_imports)]
use crate::json::{jvs, JV};
use crate::render::{indent_text, legend_lines, list_texts, nothing_line, row_depths};
#[allow(unused_imports)]
use crate::render::{depths_of, indent_of, legend, listed, nothing_text};
use crate::style::{bold, cursor, dim, fg, fg_bold, fg_dim, fg_reversed, raw, styled, Color, Line, Style, Text};
#[allow(unused_imports)]
use crate::style::{raw_line, styled_line, LineV};
use crate::text::{own, pad_left, pad_right, same};
#[allow(unused_imports)]
use crate::text::{padl, padr, strs};
use crate::tree::collapse_chains;
#[allow(unused_imports)]
use crate::tree::{in_chain, shown_depth};
#[allow(unused_imports)]
use crate::types::tagged;

verus! {

/// The style of a line of the header of a change.
pub open spec fn header_style(tag: Seq<char>) -> Style {
    if tag == "bold"@ {
        bold()
    } else if tag == "stale"@ {
        fg_reversed(Color::Red)
    } else {
        fg(Color::DarkGray)
    }
}

fn style_of_header(tag: &str) -> (r: Style)
    ensures
        r == header_style(tag@),
{
    if same(tag, "bold") {
        bold()
    } else if same(tag, "stale") {
        fg_reversed(Color::Red)
    } else {
        fg(Color::DarkGray)
    }
}

/// The header of a change.
pub open spec fn header_text(items: Seq<(Seq<char>, Seq<char>)>) -> Seq<LineV> {
    items.map_values(|p: (Seq<char>, Seq<char>)| styled_line(p.1, header_style(p.0)))
}

fn header_of(items: &Vec<(String, String)>) -> (r: Text)
    ensures
        r@ == header_text(tagged(items@)),
{
    let ghost all = header_text(tagged(items@));
    let mut out: Text = Text::new();
    let mut i: usize = 0;
    while i < items.len()
        invariant
            i <= items@.len(),
            all == header_text(tagged(items@)),
            out@ == all.take(i as int),
        decreases items@.len() - i,
    {
        assert(tagged(items@)[i as int] == (items@[i as int].0@, items@[i as int].1@));
        out = out.ln(styled(items[i].1.as_str(), style_of_header(items[i].0.as_str())));
        i += 1;
        assert(out@ =~= all.take(i as int));
    }
    assert(all.take(all.len() as int) =~= all);
    out
}

impl App {
    /// The header of the change at the cursor.
    pub open spec fn cd_info_pane(self) -> Seq<LineV> {
        match self.diff.cd_info {
            Some(items) => header_text(tagged(items@)),
            None => seq![styled_line("(select a change)"@, dim())],
        }
    }
}

/// The header of the change at the cursor.
pub fn cd_info_lines(app: &App) -> (r: Text)
    ensures
        r@ == app.cd_info_pane(),
{
    match &app.diff.cd_info {
        Some(items) => header_of(items),
        None => {
            let t: Text = Text::new().ln(styled("(select a change)", dim()));
            assert(t@ =~= app.cd_info_pane());
            t
        },
    }
}

/// The sign and the colour of a kind of change.
pub open spec fn kind_sign(kind: Seq<char>) -> (Seq<char>, Color) {
    if kind == "created"@ {
        ("+"@, Color::Green)
    } else if kind == "modified"@ || kind == "changed"@ {
        ("~"@, Color::Yellow)
    } else if kind == "deleted"@ {
        ("-"@, Color::Red)
    } else if kind == "symlink"@ {
        ("~"@, Color::Magenta)
    } else if kind == "xattr"@ {
        ("@"@, Color::Cyan)
    } else if kind == "xattr-only"@ {
        ("@"@, Color::DarkGray)
    } else {
        ("…"@, Color::DarkGray)
    }
}

fn sign_of_kind(kind: &str) -> (r: (&'static str, Color))
    ensures
        (r.0@, r.1) == kind_sign(kind@),
{
    if same(kind, "created") {
        ("+", Color::Green)
    } else if same(kind, "modified") || same(kind, "changed") {
        ("~", Color::Yellow)
    } else if same(kind, "deleted") {
        ("-", Color::Red)
    } else if same(kind, "symlink") {
        ("~", Color::Magenta)
    } else if same(kind, "xattr") {
        ("@", Color::Cyan)
    } else if same(kind, "xattr-only") {
        ("@", Color::DarkGray)
    } else {
        ("…", Color::DarkGray)
    }
}

/// The row of a directory that only connects others.
pub open spec fn connector_line(c: JV, indent: Seq<char>) -> LineV {
    styled_line(
        padr(""@, 1) + padr(""@, 1) + " "@ + padl(""@, 10) + "  "@ + indent + c.str_or("name"@, ""@) + "/"@,
        fg_dim(Color::DarkGray),
    )
}

/// The size of a change, where it has one.
pub open spec fn change_size(c: JV) -> Seq<char> {
    let n = c.i64_or("size"@, 0);
    if n > 0 { bytes_text(n) } else { ""@ }
}

/// The row of a change at the cursor.
pub open spec fn chosen_line(c: JV, sign: Seq<char>, stale: bool, indent: Seq<char>, mark: Seq<char>) -> LineV {
    styled_line(
        mark + sign + padr(if stale { "!"@ } else { ""@ }, 1) + " "@ + padl(change_size(c), 10) + "  "@ + indent
            + c.str_or("name"@, ""@),
        cursor(),
    )
}

/// The row of a change elsewhere.
pub open spec fn other_line(
    c: JV,
    sign: (Seq<char>, Color),
    stale: bool,
    indent: Seq<char>,
    mark: Seq<char>,
) -> LineV {
    let l = LineV::new().sp(mark, fg_bold(Color::Green)).sp(sign.0, fg(sign.1));
    (if stale { l.sp("!"@, fg_reversed(Color::Red)) } else { l.raw(" "@) }).raw(
        " "@ + padl(change_size(c), 10) + "  "@ + indent,
    ).sp(c.str_or("name"@, ""@), fg(if stale { Color::Red } else { sign.1 }))
}

/// The row of a change. What the engine found out of its kind goes before what the row says.
pub open spec fn change_line(
    c: JV,
    found: (Seq<char>, bool),
    depth: int,
    chain: bool,
    marked: bool,
    at_cursor: bool,
) -> LineV {
    let sign = kind_sign(if found.0.len() > 0 { found.0 } else { c.str_or("kind"@, ""@) });
    let indent = indent_of(depth, chain);
    let mark = if marked { "◆"@ } else { " "@ };
    if c.flag("connector"@) {
        connector_line(c, indent)
    } else if at_cursor {
        chosen_line(c, sign.0, found.1, indent, mark)
    } else {
        other_line(c, sign, found.1, indent, mark)
    }
}

fn size_of_change(c: &Json) -> (r: String)
    ensures
        r@ == change_size(c@),
{
    let n: i64 = c.i64_or("size", 0);
    if n > 0 {
        fmt_bytes(n)
    } else {
        own("")
    }
}

fn change_row(c: &Json, kind: &str, stale: bool, depth: usize, chain: bool, marked: bool, at_cursor: bool) -> (r: Line)
    ensures
        r@ == change_line(c@, (kind@, stale), depth as int, chain, marked, at_cursor),
{
    let name: &str = c.str_or("name", "");
    let indent: String = indent_text(depth, chain);
    if c.flag("connector") {
        let t: String = pad_right("", 1).concat(pad_right("", 1).as_str()).concat(" ").concat(pad_left("", 10).as_str()).concat(
            "  ",
        ).concat(indent.as_str()).concat(name).concat("/");
        return styled(t.as_str(), fg_dim(Color::DarkGray));
    }
    let (sign, color): (&str, Color) = sign_of_kind(if kind.unicode_len() > 0 { kind } else { c.str_or("kind", "") });
    let mark: &str = if marked { "◆" } else { " " };
    let size: String = pad_left(size_of_change(c).as_str(), 10);
    if at_cursor {
        let t: String = own(mark).concat(sign).concat(pad_right(if stale { "!" } else { "" }, 1).as_str()).concat(" ").concat(
            size.as_str(),
        ).concat("  ").concat(indent.as_str()).concat(name);
        return styled(t.as_str(), cursor());
    }
    let l: Line = Line::new().sp(mark, fg_bold(Color::Green)).sp(sign, fg(color));
    let l: Line = if stale { l.sp("!", fg_reversed(Color::Red)) } else { l.raw(" ") };
    let mid: String = own(" ").concat(size.as_str()).concat("  ").concat(indent.as_str());
    l.raw(mid.as_str()).sp(name, fg(if stale { Color::Red } else { color }))
}

/// The legend of the changes.
pub open spec fn changes_legend() -> Seq<char> {
    "Flags: + - created, ~ - modified, - - deleted, @ - xattr, ! - stale vs host"@
}

impl App {
    /// What the engine found out of the change `i`.
    pub open spec fn known(self, i: int) -> (Seq<char>, bool) {
        if 0 <= i < self.diff.decor@.len() { (self.diff.decor@[i].0@, self.diff.decor@[i].1) } else { (""@, false) }
    }

    /// The rows of the changes.
    pub open spec fn change_rows(self) -> Seq<LineV> {
        let rows = jvs(self.lists.changes.rows@);
        let d = depths_of(rows);
        Seq::new(
            rows.len(),
            |i: int|
                change_line(
                    rows[i],
                    self.known(i),
                    shown_depth(d, i),
                    in_chain(d, i),
                    !rows[i].flag("connector"@) && self.marks_here().contains(rows[i].str_or("path"@, ""@)),
                    i == self.lists.changes.sel,
                ),
        )
    }

    /// The list of the changes.
    pub open spec fn changes_pane(self, width: int) -> Seq<LineV> {
        legend(changes_legend(), width) + seq![
            styled_line(padr(""@, 1) + padr(""@, 1) + " "@ + padl("SIZE"@, 10) + "  "@ + "PATH"@, bold()),
        ] + (if self.lists.changes.rows@.len() == 0 {
            seq![
                raw_line(
                    nothing_text(
                        self.lists.changes.total as int,
                        self.filters.changes@.is_active(),
                        "(no changes)"@,
                        "(no changes match filter)"@,
                    ),
                ),
            ]
        } else {
            self.change_rows()
        })
    }
}

/// The list of the changes, as a tree.
pub fn changes_lines(app: &App, width: u16) -> (r: Text)
    ensures
        r@ == app.changes_pane(width as int),
{
    let head: String = pad_right("", 1).concat(pad_right("", 1).as_str()).concat(" ").concat(
        pad_left("SIZE", 10).as_str(),
    ).concat("  ").concat("PATH");
    let mut out: Text = legend_lines(
        "Flags: + - created, ~ - modified, - - deleted, @ - xattr, ! - stale vs host",
        width,
    ).ln(styled(head.as_str(), bold()));
    let ghost h = out@;
    assert(h =~= legend(changes_legend(), width as int) + seq![
        styled_line(padr(""@, 1) + padr(""@, 1) + " "@ + padl("SIZE"@, 10) + "  "@ + "PATH"@, bold()),
    ]);
    let rows: &Vec<Json> = &app.lists.changes.rows;
    if rows.len() == 0 {
        out = out.ln(
            nothing_line(
                app.lists.changes.total,
                app.filters.changes.active().is_some(),
                "(no changes)",
                "(no changes match filter)",
            ),
        );
        assert(out@ =~= app.changes_pane(width as int));
        return out;
    }
    let d: Vec<usize> = row_depths(rows);
    let chains: Vec<(usize, bool)> = collapse_chains(d.as_slice());
    let ghost all = app.change_rows();
    assert(h + all.take(0) =~= h);
    let mut i: usize = 0;
    while i < rows.len()
        invariant
            i <= rows@.len() == chains@.len(),
            rows == &app.lists.changes.rows,
            d@ == depths_of(jvs(rows@)),
            d@.len() == chains@.len(),
            forall|k: int|
                0 <= k < chains@.len() ==> (#[trigger] chains@[k]).0 as int == shown_depth(d@, k) && chains@[k].1
                    == in_chain(d@, k),
            all == app.change_rows(),
            out@ == h + all.take(i as int),
        decreases rows@.len() - i,
    {
        let c: &Json = &rows[i];
        assert(jvs(rows@)[i as int] == c@);
        let (depth, chain): (usize, bool) = chains[i];
        let marked: bool = !c.flag("connector") && app.is_marked(c.str_or("path", ""));
        let known: bool = i < app.diff.decor.len();
        let kind: &str = if known { app.diff.decor[i].0.as_str() } else { "" };
        let stale: bool = if known { app.diff.decor[i].1 } else { false };
        out = out.ln(change_row(c, kind, stale, depth, chain, marked, i == app.lists.changes.sel));
        i += 1;
        assert(out@ =~= h + all.take(i as int));
    }
    assert(all.take(all.len() as int) =~= all);
    assert(out@ =~= app.changes_pane(width as int));
    out
}

/// The tag of a line of a diff.
pub open spec fn line_tag(l: JV) -> Seq<char> {
    match l.arr() {
        Some(a) => if a.len() > 0 && a[0].str() is Some { a[0].str()->0 } else { " "@ },
        None => " "@,
    }
}

/// The text of a line of a diff.
pub open spec fn line_text(l: JV) -> Seq<char> {
    match l.arr() {
        Some(a) => if a.len() > 1 && a[1].str() is Some { a[1].str()->0 } else { ""@ },
        None => ""@,
    }
}

/// A line of a diff; those of the hunk at the cursor are bold, and its header is marked.
pub open spec fn diff_line(l: JV, on: bool) -> LineV {
    let tag = line_tag(l);
    let (prefix, color) = if tag == "hdr"@ {
        (""@, Color::Cyan)
    } else if tag == "+"@ {
        ("+"@, Color::Green)
    } else if tag == "-"@ {
        ("-"@, Color::Red)
    } else {
        (" "@, Color::Gray)
    };
    let mark = if on && tag == "hdr"@ { "▶ "@ } else if tag == "hdr"@ { "  "@ } else { ""@ };
    styled_line(mark + prefix + line_text(l), if on { fg_bold(color) } else { fg(color) })
}

fn str_at(v: &Vec<Json>, i: usize) -> (r: Option<&str>)
    ensures
        match r {
            Some(s) => i < v@.len() && jvs(v@)[i as int].str() == Some(s@),
            None => !(i < v@.len() && jvs(v@)[i as int].str() is Some),
        },
{
    if i < v.len() {
        assert(jvs(v@)[i as int] == v@[i as int]@);
        v[i].as_str()
    } else {
        None
    }
}

fn tag_of_line(l: &Json) -> (r: &str)
    ensures
        r@ == line_tag(l@),
{
    match l.as_arr() {
        Some(a) => match str_at(a, 0) {
            Some(s) => s,
            None => " ",
        },
        None => " ",
    }
}

fn text_of_line(l: &Json) -> (r: &str)
    ensures
        r@ == line_text(l@),
{
    match l.as_arr() {
        Some(a) => match str_at(a, 1) {
            Some(s) => s,
            None => "",
        },
        None => "",
    }
}

fn diff_row(l: &Json, on: bool) -> (r: Line)
    ensures
        r@ == diff_line(l@, on),
{
    let tag: &str = tag_of_line(l);
    let hdr: bool = same(tag, "hdr");
    let (prefix, color): (&str, Color) = if hdr {
        ("", Color::Cyan)
    } else if same(tag, "+") {
        ("+", Color::Green)
    } else if same(tag, "-") {
        ("-", Color::Red)
    } else {
        (" ", Color::Gray)
    };
    let mark: &str = if on && hdr {
        "▶ "
    } else if hdr {
        "  "
    } else {
        ""
    };
    let t: String = own(mark).concat(prefix).concat(text_of_line(l));
    styled(t.as_str(), if on { fg_bold(color) } else { fg(color) })
}

/// The lines of a hunk.
pub open spec fn hunk_text(h: JV, cur: Option<int>) -> Seq<LineV> {
    let on = h.get_i64("index"@) is Some && h.get_i64("index"@) == cur;
    let ls = h.items("lines"@);
    Seq::new(ls.len(), |i: int| diff_line(ls[i], on))
}

/// The lines of the first `n` hunks.
pub open spec fn hunks_text(hs: Seq<JV>, n: int, cur: Option<int>) -> Seq<LineV>
    decreases n,
{
    if n <= 0 {
        Seq::empty()
    } else {
        hunks_text(hs, n - 1, cur) + hunk_text(hs[n - 1], cur)
    }
}

fn add_hunk(out: Text, h: &Json, cur: Option<i64>) -> (r: Text)
    ensures
        r@ == out@ + hunk_text(
            h@,
            match cur {
                Some(n) => Some(n as int),
                None => None,
            },
        ),
{
    let ghost o = out@;
    let ghost c = match cur {
        Some(n) => Some(n as int),
        None => None,
    };
    let on: bool = match (h.get_i64("index"), cur) {
        (Some(a), Some(b)) => a == b,
        _ => false,
    };
    let mut t: Text = out;
    let ghost all = hunk_text(h@, c);
    match h.get_arr("lines") {
        None => {
            assert(t@ =~= o + all);
        },
        Some(ls) => {
            assert(h@.items("lines"@) == jvs(ls@));
            assert(o + all.take(0) =~= o);
            let mut i: usize = 0;
            while i < ls.len()
                invariant
                    i <= ls@.len(),
                    all == Seq::new(ls@.len(), |i: int| diff_line(jvs(ls@)[i], on)),
                    t@ == o + all.take(i as int),
                decreases ls@.len() - i,
            {
                assert(jvs(ls@)[i as int] == ls@[i as int]@);
                t = t.ln(diff_row(&ls[i], on));
                i += 1;
                assert(t@ =~= o + all.take(i as int));
            }
            assert(all.take(all.len() as int) =~= all);
        },
    }
    t
}

/// A diff of lines.
pub open spec fn text_diff(h: JV, cur: Option<int>) -> Seq<LineV> {
    let body = match h.get_arr("hunks"@) {
        Some(hs) => if hs.len() == 0 {
            seq![raw_line("(no textual differences)"@)]
        } else {
            hunks_text(hs, hs.len() as int, cur)
        },
        None => Seq::empty(),
    };
    if body.len() == 0 { seq![raw_line("(no hunks)"@)] } else { body }
}

fn diff_of_lines(h: &Json, cur: Option<i64>) -> (r: Text)
    ensures
        r@ == text_diff(
            h@,
            match cur {
                Some(n) => Some(n as int),
                None => None,
            },
        ),
{
    let ghost c = match cur {
        Some(n) => Some(n as int),
        None => None,
    };
    let mut t: Text = Text::new();
    match h.get_arr("hunks") {
        None => {},
        Some(hs) => {
            assert(jvs(hs@).len() == hs@.len());
            if hs.len() == 0 {
                t = t.ln(raw("(no textual differences)"));
                assert(t@ =~= seq![raw_line("(no textual differences)"@)]);
            } else {
                let mut i: usize = 0;
                while i < hs.len()
                    invariant
                        i <= hs@.len(),
                        c == (match cur {
                            Some(n) => Some(n as int),
                            None => None,
                        }),
                        t@ == hunks_text(jvs(hs@), i as int, c),
                    decreases hs@.len() - i,
                {
                    assert(jvs(hs@)[i as int] == hs@[i as int]@);
                    t = add_hunk(t, &hs[i], cur);
                    i += 1;
                }
            }
        },
    }
    if t.len() == 0 {
        let n: Text = t.ln(raw("(no hunks)"));
        assert(n@ =~= seq![raw_line("(no hunks)"@)]);
        n
    } else {
        t
    }
}

/// The turning sign of a structural diff that is being made.
pub open spec fn dots(i: int) -> Seq<char> {
    let k = i % 10;
    if k == 0 {
        "⠋"@
    } else if k == 1 {
        "⠙"@
    } else if k == 2 {
        "⠹"@
    } else if k == 3 {
        "⠸"@
    } else if k == 4 {
        "⠼"@
    } else if k == 5 {
        "⠴"@
    } else if k == 6 {
        "⠦"@
    } else if k == 7 {
        "⠧"@
    } else if k == 8 {
        "⠇"@
    } else {
        "⠏"@
    }
}

fn frame(i: usize) -> (r: &'static str)
    ensures
        r@ == dots(i as int),
{
    let k: usize = i % 10;
    if k == 0 {
        "⠋"
    } else if k == 1 {
        "⠙"
    } else if k == 2 {
        "⠹"
    } else if k == 3 {
        "⠸"
    } else if k == 4 {
        "⠼"
    } else if k == 5 {
        "⠴"
    } else if k == 6 {
        "⠦"
    } else if k == 7 {
        "⠧"
    } else if k == 8 {
        "⠇"
    } else {
        "⠏"
    }
}

/// A line of a structural diff.
pub open spec fn struct_line(tag: Seq<char>, text: Seq<char>) -> LineV {
    styled_line(
        (if tag == "+"@ {
            "+"@
        } else if tag == "-"@ {
            "-"@
        } else if tag == " "@ {
            " "@
        } else {
            ""@
        }) + text,
        fg(tag_color(tag)),
    )
}

/// The lines of a structural diff.
pub open spec fn struct_lines(v: Seq<(Seq<char>, Seq<char>)>) -> Seq<LineV> {
    v.map_values(|p: (Seq<char>, Seq<char>)| struct_line(p.0, p.1))
}

fn add_struct(out: Text, v: &Vec<(String, String)>) -> (r: Text)
    ensures
        r@ == out@ + struct_lines(tagged(v@)),
{
    let ghost o = out@;
    let ghost all = struct_lines(tagged(v@));
    let mut t: Text = out;
    assert(o + all.take(0) =~= o);
    let mut i: usize = 0;
    while i < v.len()
        invariant
            i <= v@.len(),
            all == struct_lines(tagged(v@)),
            t@ == o + all.take(i as int),
        decreases v@.len() - i,
    {
        assert(tagged(v@)[i as int] == (v@[i as int].0@, v@[i as int].1@));
        let tag: &str = v[i].0.as_str();
        let prefix: &str = if same(tag, "+") {
            "+"
        } else if same(tag, "-") {
            "-"
        } else if same(tag, " ") {
            " "
        } else {
            ""
        };
        let s: String = own(prefix).concat(v[i].1.as_str());
        t = t.ln(styled(s.as_str(), fg(struct_color(tag))));
        i += 1;
        assert(t@ =~= o + all.take(i as int));
    }
    assert(all.take(all.len() as int) =~= all);
    t
}

impl App {
    /// The lines of a binary change, as far as they are known.
    pub open spec fn binary_body(self) -> Seq<LineV> {
        let s = self.diff.structd;
        let head = header_text(tagged(s.header@));
        head + (if head.len() > 0 { seq![raw_line(""@)] } else { Seq::empty() }) + struct_lines(
            tagged(
                match s.full_lines {
                    Some(v) => v@,
                    None => s.quick_lines@,
                },
            ),
        ) + (if s.pending && s.full_lines is None {
            seq![
                styled_line(
                    "  "@ + dots(s.spin as int) + " analyzing structure…  (navigate away to cancel)"@,
                    fg(Color::DarkGray),
                ),
            ]
        } else {
            Seq::empty()
        }) + listed(strs(s.hex_lines@), ""@, fg(Color::DarkGray))
    }

    /// The diff of the change at the cursor.
    pub open spec fn hunk_pane(self) -> Seq<LineV> {
        if self.diff.hunks@ == JV::Null {
            seq![raw_line("(select a change and press Enter)"@)]
        } else if self.diff.hunks@.flag("is_text"@) {
            text_diff(self.diff.hunks@, self.cur_hunk())
        } else if self.binary_body().len() == 0 {
            seq![raw_line("(binary change)"@)]
        } else {
            self.binary_body()
        }
    }
}

fn binary_lines(app: &App) -> (r: Text)
    ensures
        r@ == app.binary_body(),
{
    let mut t: Text = header_of(&app.diff.structd.header);
    let ghost head = t@;
    if t.len() > 0 {
        t = t.ln(raw(""));
    }
    let ghost a = t@;
    assert(a =~= head + (if head.len() > 0 { seq![raw_line(""@)] } else { Seq::empty() }));
    t = match &app.diff.structd.full_lines {
        Some(v) => add_struct(t, v),
        None => add_struct(t, &app.diff.structd.quick_lines),
    };
    let ghost b = t@;
    let spinning: bool = app.diff.structd.pending && app.diff.structd.full_lines.is_none();
    if spinning {
        let s: String = own("  ").concat(frame(app.diff.structd.spin)).concat(
            " analyzing structure…  (navigate away to cancel)",
        );
        t = t.ln(styled(s.as_str(), fg(Color::DarkGray)));
    }
    assert(t@ =~= b + (if spinning {
        seq![
            styled_line(
                "  "@ + dots(app.diff.structd.spin as int) + " analyzing structure…  (navigate away to cancel)"@,
                fg(Color::DarkGray),
            ),
        ]
    } else {
        Seq::empty()
    }));
    t.and(list_texts(&app.diff.structd.hex_lines, "", fg(Color::DarkGray)))
}

/// The diff of the change at the cursor: of lines, or of the structure of a binary file.
pub fn hunk_lines(app: &App) -> (r: Text)
    ensures
        r@ == app.hunk_pane(),
{
    let is_null: bool = match &app.diff.hunks {
        Json::Null => true,
        _ => false,
    };
    if is_null {
        let t: Text = Text::new().ln(raw("(select a change and press Enter)"));
        assert(t@ =~= app.hunk_pane());
        t
    } else if app.diff.hunks.flag("is_text") {
        diff_of_lines(&app.diff.hunks, app.cur_hunk_index())
    } else {
        let t: Text = binary_lines(app);
        if t.len() == 0 {
            let n: Text = t.ln(raw("(binary change)"));
            assert(n@ =~= app.hunk_pane());
            n
        } else {
            t
        }
    }
}

} // verus!
