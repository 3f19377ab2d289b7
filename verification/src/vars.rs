//! The variables that a build assigned: the query for them, the list, and the detail of one
//! assignment, from which others can be gone to.

use vstd::prelude::*;

use crate::app::{App, Side, Then, Ui, Vars};
#[allow(unused_imports)]
use crate::app::StepV;
use crate::fmt::{makevar_site, tail_trunc};
#[allow(unused_imports)]
use crate::fmt::{site_of, tail_of};
use crate::json::{copy_all, list5, Json};
#[allow(unused_imports)]
use crate::json::{jvs, JV};
#[allow(unused_imports)]
use crate::lists::rep_v;
use crate::render::{each_line, flatten, legend_lines};
#[allow(unused_imports)]
use crate::render::{flat, legend};
use crate::style::{bg, bold, dim, fg, fg_bg, fg_bg_bold, raw, styled, Color, Line, Style, Text};
#[allow(unused_imports)]
use crate::style::{raw_line, styled_line, LineV};
use crate::text::{decimal, decimal_signed, own, pad_right, same, split_words, take_chars};
#[allow(unused_imports)]
use crate::text::{dec, first, lines, padr, sdec, strs, words};

verus! {

/// The letter of the way in which a variable was assigned.
pub open spec fn op_letter(w: Seq<char>) -> Seq<char> {
    if w == ":="@ {
        seq!['s']
    } else if w == "="@ {
        seq!['r']
    } else if w == "+="@ {
        seq!['a']
    } else if w == "?="@ {
        seq!['q']
    } else if w == "!="@ {
        seq!['!']
    } else if w == "sh"@ {
        seq!['S']
    } else {
        Seq::empty()
    }
}

/// The letter of where a variable comes from.
pub open spec fn origin_letter(w: Seq<char>) -> Seq<char> {
    if w == "env"@ {
        seq!['e']
    } else if w == "env!"@ {
        seq!['E']
    } else if w == "cmd"@ {
        seq!['c']
    } else if w == "ovr"@ {
        seq!['o']
    } else if w == "auto"@ {
        seq!['u']
    } else if w == "x"@ || w == "export"@ {
        seq!['x']
    } else {
        Seq::empty()
    }
}

/// The letters of the flags of an assignment.
pub open spec fn letters(ws: Seq<Seq<char>>) -> Seq<char>
    decreases ws.len(),
{
    if ws.len() == 0 {
        Seq::empty()
    } else if ws.len() == 1 {
        op_letter(ws[0])
    } else {
        letters(ws.drop_last()) + origin_letter(ws.last())
    }
}

/// The letters of the flags of a row.
pub open spec fn row_letters(r: JV) -> Seq<char> {
    letters(words(r.str_or("flags"@, ""@)))
}

/// The flags of an assignment, one letter each.
pub fn makevar_flag_letters(r: &Json) -> (out: String)
    ensures
        out@ == row_letters(r@),
{
    let ws: Vec<String> = split_words(r.str_or("flags", ""));
    let ghost all = strs(ws@);
    let mut out: String = String::new();
    let mut i: usize = 0;
    assert(out@ =~= letters(all.take(0)));
    while i < ws.len()
        invariant
            i <= ws@.len(),
            all == strs(ws@),
            out@ == letters(all.take(i as int)),
        decreases ws@.len() - i,
    {
        let ghost t = all.take(i + 1);
        assert(t.drop_last() =~= all.take(i as int));
        assert(t.last() == ws@[i as int]@);
        let w: &str = ws[i].as_str();
        let c: Option<char> = if i == 0 {
            if same(w, ":=") {
                Some('s')
            } else if same(w, "=") {
                Some('r')
            } else if same(w, "+=") {
                Some('a')
            } else if same(w, "?=") {
                Some('q')
            } else if same(w, "!=") {
                Some('!')
            } else if same(w, "sh") {
                Some('S')
            } else {
                None
            }
        } else if same(w, "env") {
            Some('e')
        } else if same(w, "env!") {
            Some('E')
        } else if same(w, "cmd") {
            Some('c')
        } else if same(w, "ovr") {
            Some('o')
        } else if same(w, "auto") {
            Some('u')
        } else if same(w, "x") || same(w, "export") {
            Some('x')
        } else {
            None
        };
        let ghost before = out@;
        match c {
            Some(x) => {
                out.push(x);
                assert(out@ =~= before + seq![x]);
            },
            None => {
                assert(out@ =~= before + Seq::<char>::empty());
            },
        }
        i += 1;
    }
    assert(all.take(all.len() as int) =~= all);
    out
}

/// The query in words.
pub open spec fn query_text(name: Seq<char>, value: Seq<char>, any: bool) -> Seq<char> {
    if any {
        "query: name-or-value~["@ + name + "]   ('/' to change)"@
    } else {
        "query: name~["@ + name + "] value~["@ + value + "]   ('/' to change)"@
    }
}

/// The legend of the list.
pub open spec fn vars_legend() -> Seq<char> {
    "Flags: s - simple :=, r - recursive =, a - append +=, q - if-unset ?=, ! - shell-assign !=, e - environment, E - env override, c - command line, o - override, u - automatic, S - script assignment, x - exported"@
}

/// One assignment in the list.
pub open spec fn var_line(r: JV, at_cursor: bool) -> LineV {
    let l = row_letters(r);
    let text = padr(l, 4) + " "@ + padr(first(r.str_or("name"@, ""@), 26), 26) + " "@ + flat(
        r.str_or("value"@, ""@),
        96,
    );
    if at_cursor {
        styled_line(text, fg_bg(Color::Black, Color::Cyan))
    } else if l.len() > 0 && l[0] == 'S' {
        styled_line(text, fg(Color::Magenta))
    } else {
        LineV::new().raw(text)
    }
}

fn one_var(r: &Json, at_cursor: bool) -> (l: Line)
    ensures
        l@ == var_line(r@, at_cursor),
{
    let flags: String = makevar_flag_letters(r);
    let text: String = pad_right(flags.as_str(), 4).concat(" ").concat(
        pad_right(take_chars(r.str_or("name", ""), 26).as_str(), 26).as_str(),
    ).concat(" ").concat(flatten(r.str_or("value", ""), 96).as_str());
    let shellish: bool = flags.as_str().unicode_len() > 0 && flags.as_str().get_char(0) == 'S';
    if at_cursor {
        styled(text.as_str(), fg_bg(Color::Black, Color::Cyan))
    } else if shellish {
        styled(text.as_str(), fg(Color::Magenta))
    } else {
        Line::new().raw(text.as_str())
    }
}

/// The list of assignments.
pub open spec fn var_lines(rows: Seq<JV>, sel: int) -> Seq<LineV> {
    Seq::new(rows.len(), |i: int| var_line(rows[i], i == sel))
}

/// A place that the detail of an assignment leads to.
#[derive(Debug)]
pub enum VarNavAction {
    /// The query for that name.
    Query(String),
    /// That row of the list.
    Jump(usize),
}

/// What such a place is.
pub enum NavV {
    Query(Seq<char>),
    Jump(int),
}

impl VarNavAction {
    pub open spec fn view(&self) -> NavV {
        match *self {
            VarNavAction::Query(s) => NavV::Query(s@),
            VarNavAction::Jump(i) => NavV::Jump(i as int),
        }
    }
}

/// The places of a detail, each with its line.
pub open spec fn places(v: Seq<(usize, VarNavAction)>) -> Seq<(int, NavV)> {
    v.map_values(|p: (usize, VarNavAction)| (p.0 as int, p.1@))
}

/// The style of a heading.
#[verifier::allow_in_spec]
pub fn heading() -> (r: Style)
    returns
        fg_bg_bold(Color::Black, Color::Yellow),
{
    fg_bg_bold(Color::Black, Color::Yellow)
}

/// The style of a value, which shows how far it reaches.
#[verifier::allow_in_spec]
pub fn body() -> (r: Style)
    returns
        bg(Color::Rgb(40, 40, 60)),
{
    bg(Color::Rgb(40, 40, 60))
}

/// The style of a place of the detail.
#[verifier::allow_in_spec]
pub fn place_style(on: bool) -> (r: Style)
    returns
        (if on { fg_bg(Color::Black, Color::Cyan) } else { fg(Color::Cyan) }),
{
    if on {
        fg_bg(Color::Black, Color::Cyan)
    } else {
        fg(Color::Cyan)
    }
}

/// Who set a variable that `?=` did not.
pub open spec fn winner(l: Seq<char>) -> Seq<char> {
    if l.len() > 1 && l[1] == 'c' {
        "this make's command line"@
    } else if l.len() > 1 && l[1] == 'o' {
        "an override directive"@
    } else {
        "the environment"@
    }
}

/// The assignment did not take effect: the variable was set elsewhere.
pub open spec fn lost(l: Seq<char>) -> bool {
    l.len() > 0 && l[0] == 'q' && (l.contains('e') || l.contains('E') || l.contains('c') || l.contains('o'))
}

/// What the detail says of an assignment itself.
pub open spec fn var_head(row: JV) -> Seq<LineV> {
    let edge = row.str_or("edge_out"@, ""@);
    let base = seq![
        LineV::new().sp("name   "@, dim()).sp(row.str_or("name"@, ""@), bold()),
        LineV::new().sp("site   "@, dim()).raw(site_of(row)),
        LineV::new().sp("make   "@, dim()).raw(row.str_or("make"@, ""@)),
        LineV::new().sp("flags  "@, dim()).raw(row.str_or("flags"@, ""@)),
    ];
    let context = if edge.len() > 0 {
        seq![
            LineV::new().sp("target "@, dim()).sp("⚒ "@ + edge, fg(Color::Yellow)).sp(
                "   (g/p/o/c cross-navigate)"@,
                dim(),
            ),
        ]
    } else if row.get_i64("pipeline_id"@) is Some {
        seq![
            LineV::new().sp("pipe   "@, dim()).sp("#"@ + sdec(row.i64_or("uid"@, 0)), fg(Color::Yellow)).sp(
                "   (g/p/o/c cross-navigate)"@,
                dim(),
            ),
        ]
    } else {
        Seq::empty()
    };
    let l = row_letters(row);
    let note = if lost(l) {
        seq![
            styled_line(
                "NOTE: this ?= did NOT assign — the value came from "@ + winner(l)
                    + "; the rhs below is the losing default"@,
                fg(Color::Yellow),
            ),
        ]
    } else {
        Seq::empty()
    };
    base + context + note
}

fn holds_char(s: &str, a: char) -> (r: bool)
    ensures
        r == s@.contains(a),
{
    let n: usize = s.unicode_len();
    let mut i: usize = 0;
    while i < n
        invariant
            i <= n == s@.len(),
            forall|k: int| 0 <= k < i ==> s@[k] != a,
        decreases n - i,
    {
        let c: char = s.get_char(i);
        if c == a {
            assert(s@[i as int] == a);
            return true;
        }
        i += 1;
    }
    false
}

fn head_lines(row: &Json) -> (r: Text)
    ensures
        r@ == var_head(row@),
{
    let mut out: Text = Text::new().ln(Line::new().sp("name   ", dim()).sp(row.str_or("name", ""), bold())).ln(
        Line::new().sp("site   ", dim()).raw(makevar_site(row).as_str()),
    ).ln(Line::new().sp("make   ", dim()).raw(row.str_or("make", ""))).ln(
        Line::new().sp("flags  ", dim()).raw(row.str_or("flags", "")),
    );
    let edge: &str = row.str_or("edge_out", "");
    if edge.unicode_len() > 0 {
        let t: String = own("⚒ ").concat(edge);
        out = out.ln(
            Line::new().sp("target ", dim()).sp(t.as_str(), fg(Color::Yellow)).sp("   (g/p/o/c cross-navigate)", dim()),
        );
    } else if row.get_i64("pipeline_id").is_some() {
        let t: String = own("#").concat(decimal_signed(row.i64_or("uid", 0)).as_str());
        out = out.ln(
            Line::new().sp("pipe   ", dim()).sp(t.as_str(), fg(Color::Yellow)).sp("   (g/p/o/c cross-navigate)", dim()),
        );
    }
    let ls: String = makevar_flag_letters(row);
    let l: &str = ls.as_str();
    let n: usize = l.unicode_len();
    if n > 0 && l.get_char(0) == 'q' && (holds_char(l, 'e') || holds_char(l, 'E') || holds_char(l, 'c') || holds_char(
        l,
        'o',
    )) {
        let who: &str = if n > 1 && l.get_char(1) == 'c' {
            "this make's command line"
        } else if n > 1 && l.get_char(1) == 'o' {
            "an override directive"
        } else {
            "the environment"
        };
        let t: String = own("NOTE: this ?= did NOT assign — the value came from ").concat(who).concat(
            "; the rhs below is the losing default",
        );
        out = out.ln(styled(t.as_str(), fg(Color::Yellow)));
    }
    assert(out@ =~= var_head(row@));
    out
}

/// A text and the places in it.
pub struct DetailV {
    pub lines: Seq<LineV>,
    pub items: Seq<(int, NavV)>,
}

/// The names that an assignment refers to, but for its own.
pub open spec fn others(ws: Seq<Seq<char>>, name: Seq<char>) -> Seq<Seq<char>>
    decreases ws.len(),
{
    if ws.len() == 0 {
        Seq::empty()
    } else if ws.last() == name {
        others(ws.drop_last(), name)
    } else {
        others(ws.drop_last(), name).push(ws.last())
    }
}

/// A detail with a line for each name that is referred to, each of which leads to the query for
/// it. The cursor, where it is in the detail, is on the place `item`.
pub open spec fn with_refs(d: DetailV, names: Seq<Seq<char>>, focused: bool, item: int) -> DetailV
    decreases names.len(),
{
    if names.len() == 0 {
        d
    } else {
        let p = with_refs(d, names.drop_last(), focused, item);
        DetailV {
            lines: p.lines.push(
                LineV::new().raw("  "@).sp("→ "@ + names.last(), place_style(focused && p.items.len() == item)),
            ),
            items: p.items.push((p.lines.len() as int, NavV::Query(names.last()))),
        }
    }
}

/// A detail with a line for each of the rows before the `k`th that assign the name, each of which
/// leads to its row.
pub open spec fn with_rows(d: DetailV, rows: Seq<JV>, k: int, name: Seq<char>, sel: int, focused: bool, item: int) -> DetailV
    decreases k,
{
    if k <= 0 {
        d
    } else {
        let p = with_rows(d, rows, k - 1, name, sel, focused, item);
        let r = rows[k - 1];
        if r.get_str("name"@) != Some(name) {
            p
        } else {
            DetailV {
                lines: p.lines.push(
                    LineV::new().raw(if k - 1 == sel { "▶"@ } else { " "@ }).sp(
                        padr(tail_of(site_of(r), 38), 38) + " "@,
                        place_style(focused && p.items.len() == item),
                    ).raw(flat(r.str_or("value"@, ""@), 80)),
                ),
                items: p.items.push((p.lines.len() as int, NavV::Jump(k - 1))),
            }
        }
    }
}

/// A detail with the assignment as it is written, and the names that it refers to.
pub open spec fn with_rhs(d: DetailV, row: JV, focused: bool, item: int) -> DetailV {
    let rhs = row.str_or("rhs"@, ""@);
    let names = others(words(row.str_or("refs"@, ""@)), row.str_or("name"@, ""@));
    if rhs.len() == 0 {
        d
    } else {
        let written = DetailV {
            lines: d.lines + seq![raw_line(""@), styled_line(" assignment (as written) "@, heading())] + lines(
                rhs,
            ).map_values(|l: Seq<char>| styled_line(l, body())),
            ..d
        };
        if names.len() == 0 {
            written
        } else {
            with_refs(
                DetailV {
                    lines: written.lines.push(
                        styled_line("dereferences (Tab then ↑/↓ + Enter to follow)"@, dim()),
                    ),
                    ..written
                },
                names,
                focused,
                item,
            )
        }
    }
}

/// A detail with the value.
pub open spec fn with_value(d: DetailV, row: JV) -> DetailV {
    let val = row.str_or("value"@, ""@);
    DetailV {
        lines: d.lines + seq![raw_line(""@), styled_line(" value "@, heading())] + lines(val).map_values(
            |l: Seq<char>| styled_line(l, body()),
        ) + (if val.len() == 0 { seq![styled_line("(empty)"@, dim())] } else { Seq::empty() }),
        ..d
    }
}

/// A detail with the heading of the other assignments.
pub open spec fn with_history_head(d: DetailV, name: Seq<char>) -> DetailV {
    DetailV {
        lines: d.lines + seq![
            raw_line(""@),
            LineV::new().sp(" every recorded assignment of "@ + name + " "@, heading()).sp("  (Enter jumps)"@, dim()),
        ],
        ..d
    }
}

/// The detail of the assignment at the cursor.
pub open spec fn detail_of(rows: Seq<JV>, sel: int, focused: bool, item: int) -> DetailV {
    if !(0 <= sel < rows.len()) {
        DetailV { lines: seq![styled_line("(no assignment selected)"@, dim())], items: Seq::empty() }
    } else {
        let row = rows[sel];
        let name = row.str_or("name"@, ""@);
        let d = with_rhs(DetailV { lines: var_head(row), items: Seq::empty() }, row, focused, item);
        with_rows(with_history_head(with_value(d, row), name), rows, rows.len() as int, name, sel, focused, item)
    }
}

fn other_names(refs: &str, name: &str) -> (r: Vec<String>)
    ensures
        strs(r@) == others(words(refs@), name@),
{
    let ws: Vec<String> = split_words(refs);
    let ghost all = words(refs@);
    let mut out: Vec<String> = Vec::new();
    let mut i: usize = 0;
    assert(ws@.len() == strs(ws@).len());
    assert(strs(out@) =~= others(all.take(0), name@));
    while i < ws.len()
        invariant
            i <= ws@.len() == all.len(),
            all == strs(ws@),
            strs(out@) == others(all.take(i as int), name@),
        decreases ws@.len() - i,
    {
        let ghost t = all.take(i + 1);
        assert(t.drop_last() =~= all.take(i as int));
        assert(t.last() == ws@[i as int]@);
        if !same(ws[i].as_str(), name) {
            let ghost o = strs(out@);
            out.push(ws[i].clone());
            assert(strs(out@) =~= o.push(ws@[i as int]@));
        }
        i += 1;
    }
    assert(all.take(all.len() as int) =~= all);
    out
}

/// A detail that is being made.
struct Detail {
    text: Text,
    items: Vec<(usize, VarNavAction)>,
}

impl Detail {
    spec fn view(&self) -> DetailV {
        DetailV { lines: self.text@, items: places(self.items@) }
    }

    fn add(self, l: Line, a: VarNavAction) -> (r: Detail)
        ensures
            r@.lines == self@.lines.push(l@),
            r@.items == self@.items.push((self@.lines.len() as int, a@)),
    {
        let mut items: Vec<(usize, VarNavAction)> = self.items;
        let ghost before = places(items@);
        items.push((self.text.len(), a));
        let r: Detail = Detail { text: self.text.ln(l), items };
        assert(places(r.items@) =~= before.push((self@.lines.len() as int, a@)));
        r
    }
}

fn add_refs(d: Detail, names: &Vec<String>, focused: bool, item: usize) -> (r: Detail)
    ensures
        r@ == with_refs(d@, strs(names@), focused, item as int),
{
    let ghost all = strs(names@);
    let ghost start = d@;
    let mut out: Detail = d;
    let mut i: usize = 0;
    while i < names.len()
        invariant
            i <= names@.len(),
            all == strs(names@),
            out@ == with_refs(start, all.take(i as int), focused, item as int),
        decreases names@.len() - i,
    {
        let ghost t = all.take(i + 1);
        assert(t.drop_last() =~= all.take(i as int));
        assert(t.last() == names@[i as int]@);
        let on: bool = focused && out.items.len() == item;
        assert(out.items@.len() == out@.items.len());
        let s: String = own("→ ").concat(names[i].as_str());
        out = out.add(Line::new().raw("  ").sp(s.as_str(), place_style(on)), VarNavAction::Query(names[i].clone()));
        i += 1;
    }
    assert(all.take(all.len() as int) =~= all);
    out
}

fn add_rows(d: Detail, rows: &Vec<Json>, name: &str, sel: usize, focused: bool, item: usize) -> (r: Detail)
    ensures
        r@ == with_rows(d@, jvs(rows@), rows@.len() as int, name@, sel as int, focused, item as int),
{
    let ghost start = d@;
    let mut out: Detail = d;
    let mut i: usize = 0;
    while i < rows.len()
        invariant
            i <= rows@.len(),
            out@ == with_rows(start, jvs(rows@), i as int, name@, sel as int, focused, item as int),
        decreases rows@.len() - i,
    {
        assert(jvs(rows@)[i as int] == rows@[i as int]@);
        let r: &Json = &rows[i];
        let mine: bool = match r.get_str("name") {
            Some(s) => same(s, name),
            None => false,
        };
        if mine {
            let on: bool = focused && out.items.len() == item;
            assert(out.items@.len() == out@.items.len());
            let site: String = pad_right(tail_trunc(makevar_site(r).as_str(), 38).as_str(), 38).concat(" ");
            let one: String = flatten(r.str_or("value", ""), 80);
            out = out.add(
                Line::new().raw(if i == sel { "▶" } else { " " }).sp(site.as_str(), place_style(on)).raw(one.as_str()),
                VarNavAction::Jump(i),
            );
        }
        i += 1;
    }
    out
}

impl App {
    /// The detail of the assignment at the cursor.
    pub open spec fn var_detail_v(self) -> DetailV {
        detail_of(
            jvs(self.side.vars.rows@),
            self.side.vars.sel as int,
            self.ui.right_focused,
            self.side.vars.item as int,
        )
    }
}

/// The detail of the assignment at the cursor: its text, and the places that it leads to.
pub fn var_detail(app: &App) -> (r: (Text, Vec<(usize, VarNavAction)>))
    ensures
        r.0@ == app.var_detail_v().lines,
        places(r.1@) == app.var_detail_v().items,
{
    let vars: &Vars = &app.side.vars;
    if vars.sel >= vars.rows.len() {
        let t: Text = Text::new().ln(styled("(no assignment selected)", dim()));
        let v: Vec<(usize, VarNavAction)> = Vec::new();
        assert(t@ =~= app.var_detail_v().lines);
        assert(places(v@) =~= app.var_detail_v().items);
        return (t, v);
    }
    let row: &Json = &vars.rows[vars.sel];
    assert(jvs(vars.rows@)[vars.sel as int] == row@);
    let focused: bool = app.ui.right_focused;
    let name: &str = row.str_or("name", "");
    let rhs: &str = row.str_or("rhs", "");
    let mut d: Detail = Detail { text: head_lines(row), items: Vec::new() };
    assert(places(d.items@) =~= Seq::<(int, NavV)>::empty());
    if rhs.unicode_len() > 0 {
        let ghost before = d@;
        d = Detail {
            text: d.text.ln(raw("")).ln(styled(" assignment (as written) ", heading())).and(each_line(rhs, body())),
            items: d.items,
        };
        assert(d@.lines =~= before.lines + seq![raw_line(""@), styled_line(" assignment (as written) "@, heading())]
            + lines(rhs@).map_values(|l: Seq<char>| styled_line(l, body())));
        let names: Vec<String> = other_names(row.str_or("refs", ""), name);
        assert(names@.len() == strs(names@).len());
        if names.len() > 0 {
            d = Detail {
                text: d.text.ln(styled("dereferences (Tab then ↑/↓ + Enter to follow)", dim())),
                items: d.items,
            };
            d = add_refs(d, &names, focused, vars.item);
        }
    }
    let ghost d1 = d@;
    assert(d1 == with_rhs(DetailV { lines: var_head(row@), items: Seq::empty() }, row@, focused, vars.item as int));
    let val: &str = row.str_or("value", "");
    let mut t: Text = d.text.ln(raw("")).ln(styled(" value ", heading())).and(each_line(val, body()));
    if val.unicode_len() == 0 {
        t = t.ln(styled("(empty)", dim()));
    }
    assert(t@ =~= with_value(d1, row@).lines);
    let h: String = own(" every recorded assignment of ").concat(name).concat(" ");
    let t2: Text = t.ln(raw("")).ln(Line::new().sp(h.as_str(), heading()).sp("  (Enter jumps)", dim()));
    assert(t2@ =~= with_history_head(with_value(d1, row@), name@).lines);
    d = add_rows(Detail { text: t2, items: d.items }, &vars.rows, name, vars.sel, focused, vars.item);
    (d.text, d.items)
}

impl App {
    /// The list of assignments, with its heading.
    pub open spec fn vars_index_v(self, width: int) -> Seq<LineV> {
        let v = self.side.vars;
        let head = seq![styled_line(query_text(v.query.0@, v.query.1@, v.any), bold())] + legend(vars_legend(), width)
            + seq![styled_line(padr(""@, 4) + " "@ + padr("NAME"@, 26) + " "@ + "VALUE"@, bold())];
        if v.rows@.len() == 0 {
            head + seq![
                raw_line(
                    if v.query.0@.len() == 0 && v.query.1@.len() == 0 {
                        "press '/' and type a query — a word matches variable names AND values"@
                    } else {
                        "(no recorded assignments match — was the box run with --vars?)"@
                    },
                ),
            ]
        } else {
            head + var_lines(jvs(v.rows@), v.sel as int)
        }
    }
}

pub fn vars_index_lines(app: &App, width: u16) -> (r: Text)
    ensures
        r@ == app.vars_index_v(width as int),
{
    let v: &Vars = &app.side.vars;
    let q: String = if v.any {
        own("query: name-or-value~[").concat(v.query.0.as_str()).concat("]   ('/' to change)")
    } else {
        own("query: name~[").concat(v.query.0.as_str()).concat("] value~[").concat(v.query.1.as_str()).concat(
            "]   ('/' to change)",
        )
    };
    let cols: String = pad_right("", 4).concat(" ").concat(pad_right("NAME", 26).as_str()).concat(" ").concat("VALUE");
    let mut out: Text = Text::new().ln(styled(q.as_str(), bold())).and(
        legend_lines(
            "Flags: s - simple :=, r - recursive =, a - append +=, q - if-unset ?=, ! - shell-assign !=, e - environment, E - env override, c - command line, o - override, u - automatic, S - script assignment, x - exported",
            width,
        ),
    ).ln(styled(cols.as_str(), bold()));
    let ghost head = out@;
    assert(head =~= seq![styled_line(query_text(v.query.0@, v.query.1@, v.any), bold())] + legend(
        vars_legend(),
        width as int,
    ) + seq![styled_line(padr(""@, 4) + " "@ + padr("NAME"@, 26) + " "@ + "VALUE"@, bold())]);
    if v.rows.len() == 0 {
        out = out.ln(
            raw(
                if v.query.0.as_str().is_empty() && v.query.1.as_str().is_empty() {
                    "press '/' and type a query — a word matches variable names AND values"
                } else {
                    "(no recorded assignments match — was the box run with --vars?)"
                },
            ),
        );
        assert(out@ =~= app.vars_index_v(width as int));
        return out;
    }
    let ghost all = var_lines(jvs(v.rows@), v.sel as int);
    assert(head + all.take(0) =~= head);
    let mut i: usize = 0;
    while i < v.rows.len()
        invariant
            i <= v.rows@.len(),
            all == var_lines(jvs(v.rows@), v.sel as int),
            out@ == head + all.take(i as int),
        decreases v.rows@.len() - i,
    {
        out = out.ln(one_var(&v.rows[i], i == v.sel));
        i += 1;
        assert(out@ =~= head + all.take(i as int));
    }
    assert(all.take(all.len() as int) =~= all);
    out
}

impl App {
    /// What asking for the variables of the query changes.
    pub open spec fn load_vars_v(self, post: App) -> bool {
        let v = self.side.vars;
        let asked = v.query.0@.len() > 0 || v.query.1@.len() > 0;
        &&& post.side.vars.rows@.len() == 0
        &&& post == (App {
            side: (Side {
                vars: (Vars {
                    rows: post.side.vars.rows,
                    sel: 0,
                    item: if self.sid() is Some { 0 } else { v.item },
                    ..v
                }),
                ..self.side
            }),
            ui: (Ui { status: post.ui.status, ..self.ui }),
            todo: post.todo,
            ..self
        })
        &&& match self.sid() {
            Some(sid) => if asked {
                &&& post.ui.status == self.ui.status
                &&& post.plan() == seq![
                    StepV::Call(
                        "review.makevars"@,
                        seq![JV::Str(sid), JV::Str(v.query.0@), JV::Str(v.query.1@), JV::Int(800), JV::Bool(v.any)],
                        Then::Vars,
                    ),
                ] + self.plan()
            } else {
                &&& post.ui.status@ == "vars: press '/' and type a NAME (or NAME VALUE) query"@
                &&& post.todo == self.todo
            },
            None => post.ui.status == self.ui.status && post.todo == self.todo,
        }
    }

    /// Asks for the variables of the query; without a query there is nothing to ask.
    pub fn load_vars(&mut self)
        ensures
            old(self).load_vars_v(*final(self)),
    {
        self.side.vars.rows = Vec::new();
        self.side.vars.sel = 0;
        let sid: Option<String> = match self.cur_sid() {
            Some(s) => Some(own(s)),
            None => None,
        };
        match sid {
            Some(s) => {
                self.side.vars.item = 0;
                let n: String = self.side.vars.query.0.clone();
                let v: String = self.side.vars.query.1.clone();
                if n.as_str().is_empty() && v.as_str().is_empty() {
                    self.say("vars: press '/' and type a NAME (or NAME VALUE) query");
                } else {
                    let any: bool = self.side.vars.any;
                    self.first_call(
                        "review.makevars",
                        list5(Json::Str(s), Json::Str(n), Json::Str(v), Json::Int(800), Json::Bool(any)),
                        Then::Vars,
                    );
                }
            },
            None => {},
        }
    }

    /// The change that `vars_reply` makes.
    pub open spec fn vars_reply_v(self, r: Result<Json, String>, post: App) -> bool {
        &&& (post == (App {
                side: (Side {
                    vars: (Vars { rows: post.side.vars.rows, ..self.side.vars }),
                    ..self.side
                }),
                ui: (Ui { status: post.ui.status, ..self.ui }),
                ..self
            }))
        &&& (match rep_v(r) {
                Ok(j) => {
                    &&& jvs(post.side.vars.rows@) == (match j.arr() {
                        Some(a) => a,
                        None => Seq::empty(),
                    })
                    &&& post.ui.status@ == "vars: "@ + dec(post.side.vars.rows@.len() as int)
                        + " assignment(s)"@
                },
                Err(e) => {
                    &&& post.side == self.side
                    &&& post.ui.status@ == "review.makevars: "@ + e
                },
            })
    }

    /// Takes in the variables that were found.
    pub fn vars_reply(&mut self, r: Result<Json, String>)
        ensures
            old(self).vars_reply_v(r, *final(self)),
    {
        match r {
            Ok(j) => {
                let rows: Vec<Json> = match j.as_arr() {
                    Some(a) => copy_all(a),
                    None => {
                        let v: Vec<Json> = Vec::new();
                        assert(jvs(v@) =~= Seq::<JV>::empty());
                        v
                    },
                };
                let s: String = own("vars: ").concat(decimal(rows.len() as u64).as_str()).concat(" assignment(s)");
                self.side.vars.rows = rows;
                self.say(s.as_str());
            },
            Err(e) => {
                let s: String = own("review.makevars: ").concat(e.as_str());
                self.say(s.as_str());
            },
        }
    }

    /// What 16 bits hold of a number.
    pub open spec fn low16(n: int) -> int {
        n % 65536
    }

    /// Where the detail is scrolled to so that a line is in view.
    pub open spec fn scrolled_to(scroll: int, line: int) -> int {
        if line < scroll { line } else if line > scroll + 20 { line - 20 } else { scroll }
    }

    /// The place of the detail that is `delta` places on from the one at the cursor.
    pub open spec fn place_at(self, n: int, delta: int) -> int {
        let cur = if self.side.vars.item < n { self.side.vars.item as int } else { n - 1 };
        let to = cur + delta;
        if to < 0 { 0 } else if to > n - 1 { n - 1 } else { to }
    }

    /// What moving the cursor over the places of the detail changes.
    pub open spec fn var_item_move_v(self, delta: int, post: App) -> bool {
        let items = self.var_detail_v().items;
        if items.len() == 0 {
            post == self
        } else {
            let to = self.place_at(items.len() as int, delta);
            post == (App {
                side: (Side { vars: (Vars { item: to as usize, ..self.side.vars }), ..self.side }),
                ui: (Ui {
                    right_scroll: App::scrolled_to(self.ui.right_scroll as int, App::low16(items[to].0)) as u16,
                    ..self.ui
                }),
                ..self
            })
        }
    }

    /// Moves the cursor over the places of the detail, and keeps it in view.
    pub fn var_item_move(&mut self, delta: isize)
        ensures
            old(self).var_item_move_v(delta as int, *final(self)),
    {
        let (_, items) = var_detail(self);
        let ghost v = places(items@);
        assert(items@.len() == v.len());
        if items.len() == 0 {
            return;
        }
        let last: usize = items.len() - 1;
        let cur: usize = if self.side.vars.item <= last { self.side.vars.item } else { last };
        let far: i128 = cur as i128 + delta as i128;
        let to: usize = if far < 0 {
            0
        } else if far > last as i128 {
            last
        } else {
            far as usize
        };
        self.side.vars.item = to;
        let at: usize = items[to].0;
        assert(v[to as int].0 == at as int);
        assert(at as u16 == at % 65536) by (bit_vector);
        let line: u16 = at as u16;
        let scroll: u16 = self.ui.right_scroll;
        if line < scroll {
            self.ui.right_scroll = line;
        } else if line as u32 > scroll as u32 + 20 {
            self.ui.right_scroll = line - 20;
        }
    }
}

} // verus!
