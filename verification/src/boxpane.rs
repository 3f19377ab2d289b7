//! The boxes: their tree, and what is told of the one at the cursor.

use vstd::prelude::*;

use crate::app::App;
use crate::fmt::{bold_count, fmt_age, session_flag};
#[allow(unused_imports)]
use crate::fmt::{age_secs, age_text, files_text, flag_of};
use crate::json::Json;
#[allow(unused_imports)]
use crate::json::{jvs, JV};
#[allow(unused_imports)]
use crate::lists::minus;
#[allow(unused_imports)]
use crate::num::NumV;
use crate::num::{Num, Real};
use crate::outside::Rect;
use crate::render::{file_name, flatten, indent_text, last_part, texts_of};
#[allow(unused_imports)]
use crate::render::{after_last, file_name_of, flat, indent_of, texts_at};
use crate::style::{bold, cursor, dim, fg, fg_bold, fg_dim, raw, styled, Color, Line, Style, Text};
#[allow(unused_imports)]
use crate::style::{raw_line, styled_line, LineV};
use crate::text::{decimal, decimal_signed, join, own, pad_left, pad_right, same, split_lines, take_chars, trim};
#[allow(unused_imports)]
use crate::text::{dec, first, joined, lines, padl, padr, sdec, strs, trimmed};
use crate::tree::collapse_chains;
#[allow(unused_imports)]
use crate::tree::{in_chain, shown_depth};

verus! {

/// How often a character occurs.
pub open spec fn occurrences(s: Seq<char>, c: char) -> int
    decreases s.len(),
{
    if s.len() == 0 {
        0
    } else {
        occurrences(s.drop_last(), c) + (if s.last() == c { 1int } else { 0int })
    }
}

fn count_char(s: &str, c: char) -> (r: usize)
    ensures
        r == occurrences(s@, c),
{
    let n: usize = s.unicode_len();
    let mut i: usize = 0;
    let mut k: usize = 0;
    while i < n
        invariant
            i <= n == s@.len(),
            k <= i,
            k == occurrences(s@.take(i as int), c),
        decreases n - i,
    {
        let x: char = s.get_char(i);
        let ghost t = s@.take(i + 1);
        assert(t.drop_last() =~= s@.take(i as int));
        if x == c {
            k += 1;
        }
        i += 1;
    }
    assert(s@.take(n as int) =~= s@);
    k
}

/// The depth of a box: the dots of its path.
pub open spec fn box_depth(s: JV) -> int {
    occurrences(s.str_or("path"@, ""@), '.')
}

/// The depths of the boxes.
pub open spec fn box_depths(rows: Seq<JV>) -> Seq<usize> {
    rows.map_values(|s: JV| box_depth(s) as usize)
}

fn depths(rows: &Vec<Json>) -> (r: Vec<usize>)
    ensures
        r@ == box_depths(jvs(rows@)),
{
    let mut out: Vec<usize> = Vec::new();
    let mut i: usize = 0;
    while i < rows.len()
        invariant
            i <= rows@.len(),
            out@ == box_depths(jvs(rows@)).take(i as int),
        decreases rows@.len() - i,
    {
        out.push(count_char(rows[i].str_or("path", ""), '.'));
        assert(jvs(rows@)[i as int] == rows@[i as int]@);
        i += 1;
        assert(out@ =~= box_depths(jvs(rows@)).take(i as int));
    }
    assert(out@ =~= box_depths(jvs(rows@)));
    out
}

/// The name that a box is listed by: its own, else the last of its path, else its number.
pub open spec fn list_label(s: JV) -> Seq<char> {
    if s.str_or("name"@, ""@).len() > 0 {
        s.str_or("name"@, ""@)
    } else if s.str_or("path"@, ""@).len() > 0 {
        after_last(s.str_or("path"@, ""@), '.')
    } else {
        s.str_or("session_id"@, ""@)
    }
}

fn label_in_list(s: &Json) -> (r: String)
    ensures
        r@ == list_label(s@),
{
    if s.str_or("name", "").unicode_len() > 0 {
        own(s.str_or("name", ""))
    } else if s.str_or("path", "").unicode_len() > 0 {
        last_part(s.str_or("path", ""), '.')
    } else {
        own(s.str_or("session_id", ""))
    }
}

/// How long ago a box was started, where that is known.
pub open spec fn box_age(s: JV, now: NumV) -> Seq<char> {
    let started = s.num_at("started"@);
    if started.above_zero() { age_text(age_secs(now, started)) } else { ""@ }
}

fn age_of(s: &Json, now: &Real) -> (r: String)
    ensures
        r@ == box_age(s@, now@),
{
    let started: Num = s.num_at("started");
    if started.above_zero() {
        fmt_age(&Num::of_real(now), &started)
    } else {
        own("")
    }
}

/// The width of the column of the commands.
pub open spec fn cmd_width(width: int) -> int {
    if width - 44 > 8 { width - 44 } else { 8 }
}

/// One row of the boxes.
pub open spec fn box_text(s: JV, depth: int, chain: bool, marked: bool, cw: int, now: NumV) -> Seq<char> {
    let pid = s.i64_or("pid"@, 0);
    (if marked { "◆"@ } else { " "@ }) + padr(flag_of(s.str_or("status"@, ""@)).0, 1) + " "@ + padr(
        first(indent_of(depth, chain) + list_label(s), 24),
        24,
    ) + " "@ + padr(if pid > 0 { sdec(pid) } else { ""@ }, 6) + " "@ + padr(
        first(joined(texts_at(s, "cmd"@), " "@), cw),
        cw,
    ) + " "@ + padl(box_age(s, now), 6)
}

/// The style of a row of the boxes.
pub open spec fn box_style(s: JV, at_cursor: bool, marked: bool) -> Style {
    if at_cursor {
        cursor()
    } else if marked {
        fg_bold(Color::Green)
    } else {
        fg(flag_of(s.str_or("status"@, ""@)).1)
    }
}

fn box_line(s: &Json, depth: usize, chain: bool, marked: bool, cw: usize, now: &Real, at_cursor: bool) -> (r: Line)
    ensures
        r@ == styled_line(
            box_text(s@, depth as int, chain, marked, cw as int, now@),
            box_style(s@, at_cursor, marked),
        ),
{
    let (flag, color): (&str, Color) = session_flag(s.str_or("status", ""));
    let pid: i64 = s.i64_or("pid", 0);
    let name: String = take_chars(indent_text(depth, chain).concat(label_in_list(s).as_str()).as_str(), 24);
    let pid_text: String = if pid > 0 { decimal_signed(pid) } else { own("") };
    let cmd: String = take_chars(join(&texts_of(s, "cmd"), " ").as_str(), cw);
    let t: String = own(if marked { "◆" } else { " " }).concat(pad_right(flag, 1).as_str()).concat(" ").concat(
        pad_right(name.as_str(), 24).as_str(),
    ).concat(" ").concat(pad_right(pid_text.as_str(), 6).as_str()).concat(" ").concat(
        pad_right(cmd.as_str(), cw).as_str(),
    ).concat(" ").concat(pad_left(age_of(s, now).as_str(), 6).as_str());
    let st: Style = if at_cursor {
        cursor()
    } else if marked {
        fg_bold(Color::Green)
    } else {
        fg(color)
    };
    styled(t.as_str(), st)
}

impl App {
    /// The rows of the boxes.
    pub open spec fn box_rows(self, cw: int, now: NumV) -> Seq<LineV> {
        let rows = jvs(self.boxes.sessions@);
        let d = box_depths(rows);
        Seq::new(
            rows.len(),
            |i: int|
                {
                    let marked = self.marks_here().contains(rows[i].str_or("session_id"@, ""@));
                    styled_line(
                        box_text(rows[i], shown_depth(d, i), in_chain(d, i), marked, cw, now),
                        box_style(rows[i], i == self.boxes.sel, marked),
                    )
                },
        )
    }

    /// The list of the boxes.
    pub open spec fn sessions_pane(self, width: int, now: NumV) -> Seq<LineV> {
        let cw = cmd_width(width);
        seq![
            styled_line(
                padr(""@, 1) + padr("F"@, 1) + " "@ + padr("Name"@, 24) + " "@ + padr("PID"@, 6) + " "@ + padr(
                    "Cmd"@,
                    cw,
                ) + " "@ + padl("Age"@, 6),
                bold(),
            ),
        ] + (if self.boxes.sessions@.len() == 0 { seq![raw_line("(no boxes)"@)] } else { self.box_rows(cw, now) })
    }
}

/// The list of the boxes, as a tree; `now` is the time in seconds.
pub fn sessions_lines(app: &App, width: u16, now: &Real) -> (r: Text)
    ensures
        r@ == app.sessions_pane(width as int, now@),
{
    let cw: usize = if width > 52 { (width - 44) as usize } else { 8 };
    let head: String = pad_right("", 1).concat(pad_right("F", 1).as_str()).concat(" ").concat(
        pad_right("Name", 24).as_str(),
    ).concat(" ").concat(pad_right("PID", 6).as_str()).concat(" ").concat(pad_right("Cmd", cw).as_str()).concat(
        " ",
    ).concat(pad_left("Age", 6).as_str());
    let mut out: Text = Text::new().ln(styled(head.as_str(), bold()));
    let ghost h = out@;
    let rows: &Vec<Json> = &app.boxes.sessions;
    if rows.len() == 0 {
        out = out.ln(raw("(no boxes)"));
        assert(out@ =~= app.sessions_pane(width as int, now@));
        return out;
    }
    let d: Vec<usize> = depths(rows);
    let chains: Vec<(usize, bool)> = collapse_chains(d.as_slice());
    let ghost all = app.box_rows(cw as int, now@);
    assert(h + all.take(0) =~= h);
    let mut i: usize = 0;
    while i < rows.len()
        invariant
            i <= rows@.len() == chains@.len(),
            rows == &app.boxes.sessions,
            d@ == box_depths(jvs(rows@)),
            d@.len() == chains@.len(),
            forall|k: int|
                0 <= k < chains@.len() ==> (#[trigger] chains@[k]).0 as int == shown_depth(d@, k) && chains@[k].1
                    == in_chain(d@, k),
            all == app.box_rows(cw as int, now@),
            out@ == h + all.take(i as int),
        decreases rows@.len() - i,
    {
        let s: &Json = &rows[i];
        assert(jvs(rows@)[i as int] == s@);
        let (depth, chain): (usize, bool) = chains[i];
        let marked: bool = app.is_marked(s.str_or("session_id", ""));
        out = out.ln(box_line(s, depth, chain, marked, cw, now, i == app.boxes.sel));
        i += 1;
        assert(out@ =~= h + all.take(i as int));
    }
    assert(all.take(all.len() as int) =~= all);
    assert(out@ =~= app.sessions_pane(width as int, now@));
    out
}

/// A part of what is told of a box.
#[derive(Clone, Copy, Debug, PartialEq, Eq, Structural)]
pub enum Section {
    Failures,
    Outputs,
    Changes,
    Processes,
    Pipelines,
    Edges,
}

/// A value on one line: a space for each line break or return, at most `n` characters.
pub open spec fn one_line(s: Seq<char>, n: int) -> Seq<char> {
    first(s.map_values(|c: char| if c == '\n' || c == '\r' { ' ' } else { c }), n)
}

fn on_one_line(s: &str, n: usize) -> (r: String)
    ensures
        r@ == one_line(s@, n as int),
{
    let len: usize = s.unicode_len();
    let stop: usize = if n < len { n } else { len };
    let mut out: String = String::new();
    let ghost all = s@.map_values(|c: char| if c == '\n' || c == '\r' { ' ' } else { c });
    let mut i: usize = 0;
    while i < stop
        invariant
            i <= stop <= s@.len(),
            all == s@.map_values(|c: char| if c == '\n' || c == '\r' { ' ' } else { c }),
            out@ == all.take(i as int),
        decreases stop - i,
    {
        let c: char = s.get_char(i);
        out.push(if c == '\n' || c == '\r' { ' ' } else { c });
        i += 1;
        assert(out@ =~= all.take(i as int));
    }
    assert(all.take(all.len() as int) =~= all);
    out
}

/// The first line that holds more than spaces.
pub open spec fn first_filled(ls: Seq<Seq<char>>) -> Option<Seq<char>>
    decreases ls.len(),
{
    if ls.len() == 0 {
        None
    } else if trimmed(ls[0]).len() > 0 {
        Some(ls[0])
    } else {
        first_filled(ls.drop_first())
    }
}

fn first_filled_line(s: &str) -> (r: Option<String>)
    ensures
        match r {
            Some(l) => first_filled(lines(s@)) == Some(l@),
            None => first_filled(lines(s@)) is None,
        },
{
    let ls: Vec<String> = split_lines(s);
    let ghost all = lines(s@);
    assert(ls@.len() == strs(ls@).len());
    let mut i: usize = 0;
    assert(all.skip(0) =~= all);
    while i < ls.len()
        invariant
            i <= ls@.len() == all.len(),
            all == strs(ls@),
            all == lines(s@),
            first_filled(all.skip(i as int)) == first_filled(all),
        decreases ls@.len() - i,
    {
        let ghost t = all.skip(i as int);
        assert(t.drop_first() =~= all.skip(i + 1));
        assert(t[0] == ls@[i as int]@);
        if trim(ls[i].as_str()).as_str().unicode_len() > 0 {
            return Some(ls[i].clone());
        }
        i += 1;
    }
    None
}

/// The sign and the colour of a change.
pub open spec fn change_sign(kind: Seq<char>) -> (Seq<char>, Color) {
    if kind == "deleted"@ {
        ("-"@, Color::Red)
    } else if kind == "symlink"@ {
        ("~"@, Color::Magenta)
    } else if kind == "xattr"@ {
        ("@"@, Color::Cyan)
    } else if kind == "changed"@ {
        ("~"@, Color::Yellow)
    } else {
        ("·"@, Color::DarkGray)
    }
}

fn sign_of(kind: &str) -> (r: (&'static str, Color))
    ensures
        (r.0@, r.1) == change_sign(kind@),
{
    if same(kind, "deleted") {
        ("-", Color::Red)
    } else if same(kind, "symlink") {
        ("~", Color::Magenta)
    } else if same(kind, "xattr") {
        ("@", Color::Cyan)
    } else if same(kind, "changed") {
        ("~", Color::Yellow)
    } else {
        ("·", Color::DarkGray)
    }
}

/// A change among what is told of a box.
pub open spec fn change_item(c: JV) -> LineV {
    let kind = c.str_or("kind"@, ""@);
    let l = LineV::new().raw("  "@).sp(change_sign(kind).0 + " "@, fg(change_sign(kind).1)).raw(c.str_or("path"@, ""@));
    if kind == "xattr"@ {
        l.sp("   "@ + c.str_or("xattr_key"@, ""@), fg(Color::Cyan)).sp(
            "  ("@ + sdec(c.i64_or("xattr_len"@, 0)) + " B)"@,
            dim(),
        )
    } else {
        l
    }
}

fn change_entry(c: &Json) -> (r: Line)
    ensures
        r@ == change_item(c@),
{
    let kind: &str = c.str_or("kind", "");
    let (glyph, color): (&str, Color) = sign_of(kind);
    let l: Line = Line::new().raw("  ").add(own(glyph).concat(" "), fg(color)).raw(c.str_or("path", ""));
    if same(kind, "xattr") {
        l.add(own("   ").concat(c.str_or("xattr_key", "")), fg(Color::Cyan)).add(
            own("  (").concat(decimal_signed(c.i64_or("xattr_len", 0)).as_str()).concat(" B)"),
            dim(),
        )
    } else {
        l
    }
}

/// An output among what is told of a box.
pub open spec fn output_item(r: JV, w: int) -> LineV {
    let err = r.i64_or("stream"@, 0) == 1;
    LineV::new().raw("  "@).sp(
        if err { "err"@ } else { "out"@ },
        fg(if err { Color::Red } else { Color::Green }),
    ).sp("  "@ + padl(sdec(r.i64_or("len"@, 0)), 5) + " B  "@, dim()).raw(
        one_line(r.str_or("preview"@, ""@), minus(w, 16)),
    )
}

fn output_entry(r: &Json, w: usize) -> (l: Line)
    ensures
        l@ == output_item(r@, w as int),
{
    let err: bool = r.i64_or("stream", 0) == 1;
    Line::new().raw("  ").sp(
        if err { "err" } else { "out" },
        fg(if err { Color::Red } else { Color::Green }),
    ).add(
        own("  ").concat(pad_left(decimal_signed(r.i64_or("len", 0)).as_str(), 5).as_str()).concat(" B  "),
        dim(),
    ).raw(on_one_line(r.str_or("preview", ""), w.saturating_sub(16)).as_str())
}

/// A process among what is told of a box.
pub open spec fn process_item(r: JV) -> LineV {
    let argv0 = r.str_or("argv0"@, ""@);
    LineV::new().raw("  "@).sp(padl(sdec(r.i64_or("tgid"@, 0)), 6) + "  "@, dim()).sp(
        file_name_of(if argv0.len() > 0 { argv0 } else { r.str_or("exe"@, ""@) }),
        bold(),
    )
}

fn process_entry(r: &Json) -> (l: Line)
    ensures
        l@ == process_item(r@),
{
    let argv0: &str = r.str_or("argv0", "");
    let path: &str = if argv0.unicode_len() > 0 { argv0 } else { r.str_or("exe", "") };
    Line::new().raw("  ").add(
        pad_left(decimal_signed(r.i64_or("tgid", 0)).as_str(), 6).concat("  "),
        dim(),
    ).add(file_name(path), bold())
}

/// A pipeline among what is told of a box.
pub open spec fn pipeline_item(r: JV, w: int) -> LineV {
    let nested = r.flag("nested"@);
    LineV::new().raw("  "@).sp(
        (if nested { "N"@ } else { "T"@ }) + " "@,
        fg(if nested { Color::Magenta } else { Color::Cyan }),
    ).raw(first(r.str_or("cmd"@, ""@), minus(w, 4)))
}

fn pipeline_entry(r: &Json, w: usize) -> (l: Line)
    ensures
        l@ == pipeline_item(r@, w as int),
{
    let nested: bool = r.flag("nested");
    Line::new().raw("  ").add(
        own(if nested { "N" } else { "T" }).concat(" "),
        fg(if nested { Color::Magenta } else { Color::Cyan }),
    ).raw(take_chars(r.str_or("cmd", ""), w.saturating_sub(4)).as_str())
}

/// A target among what is told of a box.
pub open spec fn edge_item(r: JV) -> LineV {
    let n = r.i64_or("n_outs"@, 1);
    let phony = r.str_or("cmd"@, ""@).len() == 0;
    LineV::new().raw("  "@).sp(
        (if phony { "P"@ } else { "R"@ }) + " "@,
        fg(if phony { Color::DarkGray } else { Color::Green }),
    ).sp(r.str_or("out"@, "(unnamed)"@), bold()).sp(if n > 1 { " (+"@ + sdec(n - 1) + ")"@ } else { ""@ }, dim())
}

fn edge_entry(r: &Json) -> (l: Line)
    ensures
        l@ == edge_item(r@),
{
    let n: i64 = r.i64_or("n_outs", 1);
    let phony: bool = r.str_or("cmd", "").unicode_len() == 0;
    let extra: String = if n > 1 { own(" (+").concat(decimal_signed(n - 1).as_str()).concat(")") } else { own("") };
    Line::new().raw("  ").add(
        own(if phony { "P" } else { "R" }).concat(" "),
        fg(if phony { Color::DarkGray } else { Color::Green }),
    ).sp(r.str_or("out", "(unnamed)"), bold()).add(extra, dim())
}

/// What broke: what it is, and the first line of what it wrote.
pub open spec fn failure_item(r: JV, w: int) -> Seq<LineV> {
    let l = LineV::new().raw("  "@).sp(
        "✗"@ + (if r.str_or("kind"@, ""@) == "edge"@ { "E"@ } else { "P"@ }) + " "@,
        fg(Color::Red),
    ).sp(flat(r.str_or("label"@, ""@), minus(w, 14)), bold()).sp("  exit "@ + sdec(r.i64_or("code"@, 0)), fg(Color::Red));
    let wrote = match r.get_str("excerpt"@) {
        Some(e) => first_filled(lines(e)),
        None => None,
    };
    match wrote {
        Some(e) => seq![l, LineV::new().raw("     "@).sp(first(e, minus(w, 6)), fg_dim(Color::Red))],
        None => seq![l],
    }
}

fn failure_entry(r: &Json, w: usize) -> (t: Text)
    ensures
        t@ == failure_item(r@, w as int),
{
    let edge: bool = same(r.str_or("kind", ""), "edge");
    let l: Line = Line::new().raw("  ").add(
        own("✗").concat(if edge { "E" } else { "P" }).concat(" "),
        fg(Color::Red),
    ).add(flatten(r.str_or("label", ""), w.saturating_sub(14)), bold()).add(
        own("  exit ").concat(decimal_signed(r.i64_or("code", 0)).as_str()),
        fg(Color::Red),
    );
    let t: Text = Text::new().ln(l);
    let wrote: Option<String> = match r.get_str("excerpt") {
        Some(e) => first_filled_line(e),
        None => None,
    };
    let t2: Text = match wrote {
        Some(e) => t.ln(Line::new().raw("     ").add(take_chars(e.as_str(), w.saturating_sub(6)), fg_dim(Color::Red))),
        None => t,
    };
    assert(t2@ =~= failure_item(r@, w as int));
    t2
}

/// One entry of a part.
pub open spec fn item_lines(k: Section, r: JV, w: int) -> Seq<LineV> {
    match k {
        Section::Failures => failure_item(r, w),
        Section::Outputs => seq![output_item(r, w)],
        Section::Changes => seq![change_item(r)],
        Section::Processes => seq![process_item(r)],
        Section::Pipelines => seq![pipeline_item(r, w)],
        Section::Edges => seq![edge_item(r)],
    }
}

fn one_entry(k: Section, r: &Json, w: usize) -> (t: Text)
    ensures
        t@ == item_lines(k, r@, w as int),
{
    let t: Text = match k {
        Section::Failures => failure_entry(r, w),
        Section::Outputs => Text::new().ln(output_entry(r, w)),
        Section::Changes => Text::new().ln(change_entry(r)),
        Section::Processes => Text::new().ln(process_entry(r)),
        Section::Pipelines => Text::new().ln(pipeline_entry(r, w)),
        Section::Edges => Text::new().ln(edge_entry(r)),
    };
    assert(t@ =~= item_lines(k, r@, w as int));
    t
}

/// The first `n` entries, the first one last.
pub open spec fn tail_lines(k: Section, rows: Seq<JV>, n: int, w: int) -> Seq<LineV>
    decreases n,
{
    if n <= 0 {
        Seq::empty()
    } else {
        item_lines(k, rows[n - 1], w) + tail_lines(k, rows, n - 1, w)
    }
}

fn tail_text(k: Section, rows: &Vec<Json>, n: usize, w: usize) -> (r: Text)
    requires
        n <= rows@.len(),
    ensures
        r@ == tail_lines(k, jvs(rows@), n as int, w as int),
{
    let mut out: Text = Text::new();
    let mut i: usize = n;
    let ghost all = tail_lines(k, jvs(rows@), n as int, w as int);
    assert(out@ + all =~= all);
    while i > 0
        invariant
            i <= n <= rows@.len(),
            out@ + tail_lines(k, jvs(rows@), i as int, w as int) == all,
        decreases i,
    {
        let ghost o = out@;
        let ghost rest = tail_lines(k, jvs(rows@), i - 1, w as int);
        assert(jvs(rows@)[i - 1] == rows@[i - 1]@);
        let e: Text = one_entry(k, &rows[i - 1], w);
        let ghost ev = e@;
        out = out.and(e);
        assert(o + (ev + rest) =~= out@ + rest);
        i -= 1;
    }
    assert(out@ =~= all);
    out
}

/// The heading of a part.
pub open spec fn section_head(k: Section) -> LineV {
    match k {
        Section::Failures => styled_line(
            "── FAILURES ── ('!' in build/pipes/outputs filters to errors)"@,
            fg_bold(Color::Red),
        ),
        Section::Outputs => styled_line("── recent outputs ──"@, dim()),
        Section::Changes => styled_line("── recent changes ──"@, dim()),
        Section::Processes => styled_line("── recent processes ──"@, dim()),
        Section::Pipelines => styled_line("── recent pipelines ──"@, dim()),
        Section::Edges => styled_line("── recent build edges ──"@, dim()),
    }
}

fn head_line(k: Section) -> (r: Line)
    ensures
        r@ == section_head(k),
{
    match k {
        Section::Failures => styled(
            "── FAILURES ── ('!' in build/pipes/outputs filters to errors)",
            fg_bold(Color::Red),
        ),
        Section::Outputs => styled("── recent outputs ──", dim()),
        Section::Changes => styled("── recent changes ──", dim()),
        Section::Processes => styled("── recent processes ──", dim()),
        Section::Pipelines => styled("── recent pipelines ──", dim()),
        Section::Edges => styled("── recent build edges ──", dim()),
    }
}

/// A part: its newest entries, the newest last. Of what broke, six at most are shown, and how many
/// more there are. A part without entries is left out.
pub open spec fn section_lines(k: Section, rows: Seq<JV>, budget: int, w: int) -> Seq<LineV> {
    let cap = if k == Section::Failures && budget > 6 { 6 } else { budget };
    let n = if rows.len() < cap { rows.len() as int } else { cap };
    if rows.len() == 0 {
        Seq::empty()
    } else {
        seq![section_head(k)] + (if k == Section::Failures && rows.len() > cap {
            seq![
                styled_line(
                    "  (+"@ + dec(rows.len() - cap) + " more — 'g' then '!' to see all)"@,
                    fg_dim(Color::Red),
                ),
            ]
        } else {
            Seq::empty()
        }) + tail_lines(k, rows, n, w) + seq![raw_line(""@)]
    }
}

fn add_section(out: Text, k: Section, rows: &Vec<Json>, budget: usize, w: usize) -> (r: Text)
    ensures
        r@ == out@ + section_lines(k, jvs(rows@), budget as int, w as int),
{
    let ghost o = out@;
    if rows.len() == 0 {
        assert(out@ =~= o + Seq::<LineV>::empty());
        return out;
    }
    let cap: usize = if k == Section::Failures && budget > 6 { 6 } else { budget };
    let n: usize = if rows.len() < cap { rows.len() } else { cap };
    let mut t: Text = out.ln(head_line(k));
    if k == Section::Failures && rows.len() > cap {
        let more: String = own("  (+").concat(decimal((rows.len() - cap) as u64).as_str()).concat(
            " more — 'g' then '!' to see all)",
        );
        t = t.ln(styled(more.as_str(), fg_dim(Color::Red)));
    }
    let t2: Text = t.and(tail_text(k, rows, n, w)).ln(raw(""));
    assert(t2@ =~= o + section_lines(k, jvs(rows@), budget as int, w as int));
    t2
}


fn list_at(j: &Json, k: &str) -> (r: Vec<Json>)
    ensures
        jvs(r@) == j@.items(k@),
        r@.len() == j@.items(k@).len(),
{
    match j.get_arr(k) {
        Some(v) => {
            let c: Vec<Json> = crate::json::copy_all(v);
            assert(c@.len() == jvs(c@).len());
            c
        },
        None => {
            let v: Vec<Json> = Vec::new();
            assert(jvs(v@) =~= Seq::<JV>::empty());
            v
        },
    }
}

/// One thing that is running in a box.
pub open spec fn activity_line(a: JV, w: int) -> LineV {
    let age = a.u64_or("age"@, 0);
    LineV::new().raw("  "@).sp(
        padl(dec(age), 4) + "s "@,
        if age >= 300 { fg_bold(Color::Red) } else { fg(Color::Yellow) },
    ).raw(flat(a.str_or("desc"@, ""@), minus(w, 12)))
}

fn activity_entry(a: &Json, w: usize) -> (r: Line)
    ensures
        r@ == activity_line(a@, w as int),
{
    let age: u64 = a.u64_or("age", 0);
    Line::new().raw("  ").add(
        pad_left(decimal(age).as_str(), 4).concat("s "),
        if age >= 300 { fg_bold(Color::Red) } else { fg(Color::Yellow) },
    ).raw(flatten(a.str_or("desc", ""), w.saturating_sub(12)).as_str())
}

/// What is running in a box now, eight things at most.
pub open spec fn activity_lines(acts: Seq<JV>, w: int) -> Seq<LineV> {
    let n = if acts.len() < 8 { acts.len() } else { 8 };
    if acts.len() == 0 {
        Seq::empty()
    } else {
        seq![
            styled_line(
                "── IN FLIGHT ── (builtins running now — updated every 30s)"@,
                fg_bold(Color::Yellow),
            ),
        ] + Seq::new(n, |i: int| activity_line(acts[i], w)) + seq![raw_line(""@)]
    }
}

fn add_activity(out: Text, acts: &Vec<Json>, w: usize) -> (r: Text)
    ensures
        r@ == out@ + activity_lines(jvs(acts@), w as int),
{
    let ghost o = out@;
    if acts.len() == 0 {
        assert(out@ =~= o + Seq::<LineV>::empty());
        return out;
    }
    let n: usize = if acts.len() < 8 { acts.len() } else { 8 };
    let mut t: Text = out.ln(
        styled("── IN FLIGHT ── (builtins running now — updated every 30s)", fg_bold(Color::Yellow)),
    );
    let ghost h = t@;
    let ghost all = Seq::new(n as nat, |i: int| activity_line(jvs(acts@)[i], w as int));
    assert(h + all.take(0) =~= h);
    let mut i: usize = 0;
    while i < n
        invariant
            i <= n <= acts@.len(),
            all == Seq::new(n as nat, |i: int| activity_line(jvs(acts@)[i], w as int)),
            t@ == h + all.take(i as int),
        decreases n - i,
    {
        assert(jvs(acts@)[i as int] == acts@[i as int]@);
        t = t.ln(activity_entry(&acts[i], w));
        i += 1;
        assert(t@ =~= h + all.take(i as int));
    }
    let t2: Text = t.ln(raw(""));
    assert(t2@ =~= o + activity_lines(jvs(acts@), w as int));
    t2
}

/// The label of a box: its path, else its name, else its number.
pub open spec fn box_label(s: JV) -> Seq<char> {
    if s.str_or("path"@, ""@).len() > 0 {
        s.str_or("path"@, ""@)
    } else if s.str_or("name"@, ""@).len() > 0 {
        s.str_or("name"@, ""@)
    } else {
        s.str_or("session_id"@, ""@)
    }
}

/// What stands first of what is told of a box.
pub open spec fn box_head(s: JV, changes: int, now: NumV) -> Seq<LineV> {
    let status = s.str_or("status"@, ""@);
    let color = flag_of(status).1;
    let pid = s.i64_or("pid"@, 0);
    seq![
        styled_line(box_label(s), fg_bold(color)),
        LineV::new().sp("status  "@, dim()).sp(status, fg(color)),
        LineV::new().sp("cmd     "@, dim()).raw(joined(texts_at(s, "cmd"@), " "@)),
        LineV::new().sp("pid     "@, dim()).raw(if pid > 0 { sdec(pid) } else { "0"@ }).raw("    "@).sp("age "@, dim()).raw(
            box_age(s, now),
        ),
        LineV::new().sp("changes "@, dim()).sp(files_text(changes), bold()).sp(
            "   ["@ + (if s.flag("live"@) { "recently changed"@ } else { "↵ to review"@ }) + "]"@,
            dim(),
        ),
        raw_line(""@),
    ]
}

fn head_of_box(s: &Json, changes: usize, now: &Real) -> (r: Text)
    ensures
        r@ == box_head(s@, changes as int, now@),
{
    let status: &str = s.str_or("status", "");
    let (_, color): (&str, Color) = session_flag(status);
    let path: &str = s.str_or("path", "");
    let name: &str = s.str_or("name", "");
    let label: &str = if path.unicode_len() > 0 {
        path
    } else if name.unicode_len() > 0 {
        name
    } else {
        s.str_or("session_id", "")
    };
    let pid: i64 = s.i64_or("pid", 0);
    let pid_text: String = if pid > 0 { decimal_signed(pid) } else { own("0") };
    let hint: String = own("   [").concat(if s.flag("live") { "recently changed" } else { "↵ to review" }).concat("]");
    let t: Text = Text::new().ln(styled(label, fg_bold(color))).ln(
        Line::new().sp("status  ", dim()).sp(status, fg(color)),
    ).ln(Line::new().sp("cmd     ", dim()).raw(join(&texts_of(s, "cmd"), " ").as_str())).ln(
        Line::new().sp("pid     ", dim()).raw(pid_text.as_str()).raw("    ").sp("age ", dim()).raw(age_of(s, now).as_str()),
    ).ln(Line::new().sp("changes ", dim()).add(bold_count(changes), bold()).add(hint, dim())).ln(raw(""));
    assert(t@ =~= box_head(s@, changes as int, now@));
    t
}

/// One, or none.
pub open spec fn one_if(b: bool) -> int {
    if b { 1 } else { 0 }
}

/// How many parts of what is told of a box have entries, one at least.
pub open spec fn filled_parts(sum: JV) -> int {
    let n = one_if(sum.items("changes"@).len() > 0) + one_if(sum.items("outputs"@).len() > 0) + one_if(
        sum.items("processes"@).len() > 0,
    ) + one_if(sum.items("pipelines"@).len() > 0) + one_if(sum.items("edges"@).len() > 0) + one_if(
        sum.items("failures"@).len() > 0,
    );
    if n > 1 { n } else { 1 }
}

/// How many entries of each part fit a pane of that height, three at least.
pub open spec fn part_budget(sum: JV, height: int) -> int {
    let each = minus(minus(minus(height, 2), 6) / filled_parts(sum), 2);
    if each > 3 { each } else { 3 }
}

/// The width within a pane, twenty at least.
pub open spec fn part_width(width: int) -> int {
    if width - 2 > 20 { width - 2 } else { 20 }
}

/// What is shown where there is nothing to tell.
pub open spec fn empty_note(sum: JV) -> Seq<LineV> {
    if sum == JV::Null {
        seq![
            styled_line(
                "(no summary yet — engine is still answering review.box_summary)"@,
                fg_dim(Color::Yellow),
            ),
        ]
    } else if sum.items("changes"@).len() == 0 && sum.items("outputs"@).len() == 0 && sum.items("processes"@).len() == 0
        && sum.items("pipelines"@).len() == 0 && sum.items("edges"@).len() == 0 {
        seq![styled_line("(box is empty — no changes, outputs, processes yet)"@, dim())]
    } else {
        Seq::empty()
    }
}

/// What is told of a box, behind its head.
pub open spec fn with_parts(head: Seq<LineV>, sum: JV, b: int, w: int) -> Seq<LineV> {
    head + activity_lines(sum.items("activity"@), w) + section_lines(Section::Failures, sum.items("failures"@), b, w)
        + section_lines(Section::Outputs, sum.items("outputs"@), b, w) + section_lines(
        Section::Changes,
        sum.items("changes"@),
        b,
        w,
    ) + section_lines(Section::Processes, sum.items("processes"@), b, w) + section_lines(
        Section::Pipelines,
        sum.items("pipelines"@),
        b,
        w,
    ) + section_lines(Section::Edges, sum.items("edges"@), b, w) + empty_note(sum)
}

impl App {
    /// What is told of the box at the cursor.
    pub open spec fn box_detail_pane(self, width: int, height: int, now: NumV) -> Seq<LineV> {
        let i = self.boxes.sel as int;
        if i >= self.boxes.sessions@.len() {
            seq![styled_line("(no slopbox selected)"@, dim())]
        } else {
            with_parts(
                box_head(self.boxes.sessions@[i]@, self.lists.changes.total as int, now),
                self.boxes.summary@,
                part_budget(self.boxes.summary@, height),
                part_width(width),
            )
        }
    }
}

fn at_most_one(b: bool) -> (r: usize)
    ensures
        r == one_if(b),
{
    if b {
        1
    } else {
        0
    }
}

fn budget_of(sum: &Json, height: u16) -> (r: usize)
    ensures
        r == part_budget(sum@, height as int),
{
    let parts: usize = at_most_one(list_at(sum, "changes").len() > 0) + at_most_one(list_at(sum, "outputs").len() > 0)
        + at_most_one(list_at(sum, "processes").len() > 0) + at_most_one(list_at(sum, "pipelines").len() > 0)
        + at_most_one(list_at(sum, "edges").len() > 0) + at_most_one(list_at(sum, "failures").len() > 0);
    let parts: usize = if parts > 1 { parts } else { 1 };
    assert(parts == filled_parts(sum@));
    let room: usize = (height as usize).saturating_sub(2).saturating_sub(6);
    let each: usize = (room / parts).saturating_sub(2);
    if each > 3 {
        each
    } else {
        3
    }
}

fn note_line(sum: &Json) -> (r: Text)
    ensures
        r@ == empty_note(sum@),
{
    let is_null: bool = match sum {
        Json::Null => true,
        _ => false,
    };
    let t: Text = Text::new();
    let r: Text = if is_null {
        t.ln(
            styled("(no summary yet — engine is still answering review.box_summary)", fg_dim(Color::Yellow)),
        )
    } else if list_at(sum, "changes").len() == 0 && list_at(sum, "outputs").len() == 0 && list_at(sum, "processes").len()
        == 0 && list_at(sum, "pipelines").len() == 0 && list_at(sum, "edges").len() == 0 {
        t.ln(styled("(box is empty — no changes, outputs, processes yet)", dim()))
    } else {
        t
    };
    assert(r@ =~= empty_note(sum@));
    r
}

fn add_parts(head: Text, sum: &Json, budget: usize, w: usize) -> (r: Text)
    ensures
        r@ == with_parts(head@, sum@, budget as int, w as int),
{
    let t: Text = add_activity(head, &list_at(sum, "activity"), w);
    let t: Text = add_section(t, Section::Failures, &list_at(sum, "failures"), budget, w);
    let t: Text = add_section(t, Section::Outputs, &list_at(sum, "outputs"), budget, w);
    let t: Text = add_section(t, Section::Changes, &list_at(sum, "changes"), budget, w);
    let t: Text = add_section(t, Section::Processes, &list_at(sum, "processes"), budget, w);
    let t: Text = add_section(t, Section::Pipelines, &list_at(sum, "pipelines"), budget, w);
    let t: Text = add_section(t, Section::Edges, &list_at(sum, "edges"), budget, w);
    t.and(note_line(sum))
}

/// What is told of the box at the cursor, in a pane of that size; `now` is the time in seconds.
pub fn box_detail_lines(app: &App, area: Rect, now: &Real) -> (r: Text)
    ensures
        r@ == app.box_detail_pane(area.width as int, area.height as int, now@),
{
    if app.boxes.sel >= app.boxes.sessions.len() {
        let t: Text = Text::new().ln(styled("(no slopbox selected)", dim()));
        assert(t@ =~= app.box_detail_pane(area.width as int, area.height as int, now@));
        return t;
    }
    let sum: &Json = &app.boxes.summary;
    let w: usize = if area.width > 22 { (area.width - 2) as usize } else { 20 };
    let budget: usize = budget_of(sum, area.height);
    let head: Text = head_of_box(&app.boxes.sessions[app.boxes.sel], app.lists.changes.total, now);
    add_parts(head, sum, budget, w)
}

} // verus!
