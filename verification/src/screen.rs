//! The whole screen: the bars, and between them a list with what is known of its row, the help or
//! a terminal; over them a dialog.

use vstd::prelude::*;

use crate::app::{App, Ui};
use crate::bars::{cmdline_spans, fkeybar_spans, menubar_spans, status_spans};
#[allow(unused_imports)]
use crate::bars::fkeys_line;
use crate::boxpane::{box_detail_lines, sessions_lines};
use crate::callpane::{
    api_log_detail_lines, api_log_index_lines, flow_detail_lines, flows_lines, packet_detail_lines, packets_lines,
    webcap_detail_lines, webcap_index_lines,
};
#[allow(unused_imports)]
use crate::callpane::decoded_frame;
use crate::canvas::{block, Canvas, Widget};
#[allow(unused_imports)]
use crate::canvas::{pane_frame, WidgetV};
use crate::changepane::{cd_info_lines, changes_lines, hunk_lines};
use crate::fmt::{scroll_for_cursor, title};
#[allow(unused_imports)]
use crate::fmt::scroll_row;
use crate::json::{list2, Json};
#[allow(unused_imports)]
use crate::json::{jvs, JV};
#[allow(unused_imports)]
use crate::lists::{fit, minus};
#[allow(unused_imports)]
use crate::loads::opt_jv;
use crate::modalview::draw_modal;
#[allow(unused_imports)]
use crate::num::NumV;
use crate::num::Real;
use crate::outpane::{outputs_index_lines, outputs_lines};
#[allow(unused_imports)]
use crate::areas::{halved, in_columns, in_rows};
use crate::areas::{divide_below, divide_columns, divide_rows};
#[allow(unused_imports)]
use crate::outside::columns;
use crate::outside::{text_columns, Rect};
use crate::pipepane::{build_edge_detail_lines, build_edges_lines, pipeline_detail_lines, pipelines_lines};
use crate::procpane::{proc_detail_lines, processes_lines};
use crate::rulepane::{help_lines, rule_detail_lines, rules_lines, FileRule};
#[allow(unused_imports)]
use crate::rulepane::{help_pane, opt_rule};
use crate::style::{dim, fg_bold, styled, Color, Line, Text};
#[allow(unused_imports)]
use crate::style::{lvs, styled_line, LineV};
use crate::text::{decimal, decimal_signed, own};
#[allow(unused_imports)]
use crate::text::{dec, sdec};
use crate::types::{Pane, PtyInfo};
use crate::vars::{var_detail, vars_index_lines};

verus! {

/// The number of columns that a line takes up.
pub open spec fn line_columns(l: LineV) -> int
    decreases l.spans.len(),
{
    if l.spans.len() == 0 {
        0
    } else {
        line_columns(LineV { spans: l.spans.drop_last() }) + columns(l.spans.last().text)
    }
}

/// The rows that a line takes up where it wraps at a width of `w`, one at least.
pub open spec fn line_rows(l: LineV, w: int) -> int {
    let n = (line_columns(l) + w - 1) / w;
    if n > 1 { n } else { 1 }
}

/// The rows that lines take up where they wrap.
pub open spec fn rows_of(ls: Seq<LineV>, w: int) -> int
    decreases ls.len(),
{
    if ls.len() == 0 {
        0
    } else {
        rows_of(ls.drop_last(), w) + line_rows(ls.last(), w)
    }
}

fn columns_of(l: &Line) -> (r: u128)
    ensures
        r == line_columns(l@),
        r <= 0xffff_ffff_ffff_fffe_0000_0000_0000_0001,
{
    let ghost all = l@.spans;
    assert(all.len() == l.spans@.len());
    let n: usize = l.spans.len();
    let mut sum: u128 = 0;
    let mut i: usize = 0;
    assert(line_columns(LineV { spans: all.take(0) }) == 0);
    while i < n
        invariant
            i <= n == l.spans@.len(),
            all == l@.spans,
            all.len() == n,
            sum == line_columns(LineV { spans: all.take(i as int) }),
            sum <= i * 0xffff_ffff_ffff_ffff,
        decreases n - i,
    {
        let ghost t = all.take(i + 1);
        assert(t.drop_last() =~= all.take(i as int));
        assert(t.last() == l.spans@[i as int]@);
        let c: usize = text_columns(l.spans[i].text.as_str());
        sum = sum + c as u128;
        i += 1;
    }
    assert(LineV { spans: all.take(n as int) } =~= l@);
    sum
}

/// The rows that the first `n` lines take up in a part of that inner width, as far as they can be
/// counted.
pub fn wrapped_rows(lines: &Vec<Line>, n: usize, inner_w: u16) -> (r: usize)
    requires
        n <= lines@.len(),
    ensures
        r == fit(rows_of(lvs(lines@).take(n as int), if inner_w > 1 { inner_w as int } else { 1 })),
        rows_of(lvs(lines@).take(n as int), if inner_w > 1 { inner_w as int } else { 1 }) >= 0,
{
    let w: u128 = if inner_w > 1 { inner_w as u128 } else { 1 };
    let ghost all = lvs(lines@);
    let mut total: usize = 0;
    let mut i: usize = 0;
    assert(all.take(0).len() == 0);
    while i < n
        invariant
            i <= n <= lines@.len(),
            1 <= w <= 65535,
            all == lvs(lines@),
            rows_of(all.take(i as int), w as int) >= 0,
            total == fit(rows_of(all.take(i as int), w as int)),
        decreases n - i,
    {
        let ghost t = all.take(i + 1);
        assert(t.drop_last() =~= all.take(i as int));
        assert(t.last() == lines@[i as int]@);
        let c: u128 = columns_of(&lines[i]);
        let k: u128 = (c + w - 1) / w;
        let rows: u128 = if k > 1 { k } else { 1 };
        assert(rows == line_rows(lines@[i as int]@, w as int));
        let add: usize = if rows <= usize::MAX as u128 { rows as usize } else { usize::MAX };
        total = total.saturating_add(add);
        i += 1;
    }
    total
}

/// The parts of the screen. `top` and `bottom` are the parts of the terminal, or of the change.
#[derive(Clone, Copy, Debug, PartialEq, Eq, Structural)]
pub struct Parts {
    pub menubar: Rect,
    pub body: Rect,
    pub cmdline: Rect,
    pub fkeybar: Rect,
    pub status: Rect,
    pub left: Rect,
    pub right: Rect,
    pub top: Rect,
    pub bottom: Rect,
}

/// What the screen shows that is not part of the state.
#[derive(Debug)]
pub struct Given {
    /// What the engine told of the row at the cursor.
    pub detail: Option<Json>,
    /// The rule at the cursor, where it could be taken apart.
    pub rule: Option<FileRule>,
    /// The file of the rules.
    pub rules_path: String,
    /// The directory of the settings.
    pub conf: String,
    /// The time, in seconds.
    pub now: Real,
}

/// What a list on the screen is.
pub struct ListV {
    pub title: Seq<char>,
    pub text: Seq<LineV>,
    /// The line that the cursor is on.
    pub at: usize,
    pub wrap: bool,
}

/// A list on the screen.
struct List {
    title: String,
    text: Text,
    at: usize,
    wrap: bool,
}

impl List {
    spec fn view(&self) -> ListV {
        ListV { title: self.title@, text: self.text@, at: self.at, wrap: self.wrap }
    }
}

/// The line of a row: behind the lines before the rows.
pub open spec fn row_line(sel: usize, lines: int, rows: int, more: int) -> usize {
    fit(sel + minus(lines, rows) + more)
}

fn line_of_row(sel: usize, lines: usize, rows: usize, more: usize) -> (r: usize)
    requires
        more <= 1,
    ensures
        r == row_line(sel, lines as int, rows as int, more as int),
{
    sel.saturating_add(lines.saturating_sub(rows)).saturating_add(more)
}

impl App {
    /// The pane is one of those with a list and what is known of its row.
    pub open spec fn has_list(self) -> bool {
        self.ui.focus != Pane::Pty && self.ui.focus != Pane::Help
    }

    /// The list of the pane.
    pub open spec fn list_view(self, width: int, now: NumV) -> ListV {
        let one = |sel: usize, t: Seq<char>, text: Seq<LineV>| ListV { title: t, text, at: fit(sel + 1), wrap: false };
        match self.ui.focus {
            Pane::Sessions => one(self.boxes.sel, "sarun · boxes"@, self.sessions_pane(width, now)),
            Pane::Processes => one(self.lists.processes.sel, "PROCESSES"@, self.processes_pane()),
            Pane::Outputs => one(self.lists.outputs.sel, "OUTPUTS"@, self.outputs_index_pane()),
            Pane::Rules => ListV { wrap: true, ..one(self.side.sel_rule, "FILE RULES"@, self.rules_pane()) },
            Pane::Flows => one(self.side.flows.sel, "FLOWS · -n captured"@, self.flows_pane()),
            Pane::Packets => one(
                self.side.packets.sel,
                "PACKETS · stream "@ + sdec(self.side.packets_stream as int),
                self.packets_pane(),
            ),
            Pane::ApiLogs => one(self.side.api.sel, "API LOG · oaita proxy"@, self.api_pane()),
            Pane::Network => one(self.side.web.sel, "WEB · capture archive"@, self.web_pane()),
            Pane::Pipelines => {
                let text = self.pipelines_pane(width);
                ListV {
                    title: "PIPELINES · brush"@,
                    text,
                    at: row_line(
                        self.lists.pipelines.sel,
                        text.len() as int,
                        self.lists.pipelines.rows@.len() as int,
                        1,
                    ),
                    wrap: false,
                }
            },
            Pane::BuildEdges => {
                let text = self.edges_pane(width);
                ListV {
                    title: "BUILD EDGES · ninja/make"@,
                    text,
                    at: row_line(self.lists.edges.sel, text.len() as int, self.lists.edges.rows@.len() as int, 1),
                    wrap: false,
                }
            },
            Pane::Vars => {
                let text = self.vars_index_v(width);
                ListV {
                    title: "VARS · provenance"@,
                    text,
                    at: row_line(self.side.vars.sel, text.len() as int, self.side.vars.rows@.len() as int, 0),
                    wrap: false,
                }
            },
            _ => {
                let text = self.changes_pane(width);
                ListV {
                    title: "changes"@,
                    text,
                    at: row_line(self.lists.changes.sel, text.len() as int, self.lists.changes.rows@.len() as int, 0),
                    wrap: false,
                }
            },
        }
    }

    /// The list has the keys.
    pub open spec fn list_focused(self) -> bool {
        match self.ui.focus {
            Pane::Changes => true,
            Pane::Hunks => false,
            _ => !self.ui.right_focused,
        }
    }
}

fn plain_list(name: &str, text: Text, sel: usize) -> (r: List)
    ensures
        r@ == (ListV { title: name@, text: text@, at: fit(sel + 1), wrap: false }),
{
    List { title: own(name), text, at: sel.saturating_add(1), wrap: false }
}

fn counted_list(name: &str, text: Text, sel: usize, rows: usize, more: usize) -> (r: List)
    requires
        more <= 1,
    ensures
        r@ == (ListV {
            title: name@,
            text: text@,
            at: row_line(sel, text@.len() as int, rows as int, more as int),
            wrap: false,
        }),
{
    let n: usize = text.len();
    List { title: own(name), text, at: line_of_row(sel, n, rows, more), wrap: false }
}

fn list_of(app: &App, width: u16, now: &Real) -> (r: List)
    ensures
        r@ == app.list_view(width as int, now@),
{
    match app.ui.focus {
        Pane::Sessions => plain_list("sarun · boxes", sessions_lines(app, width, now), app.boxes.sel),
        Pane::Processes => plain_list("PROCESSES", processes_lines(app), app.lists.processes.sel),
        Pane::Outputs => plain_list("OUTPUTS", outputs_index_lines(app), app.lists.outputs.sel),
        Pane::Rules => {
            let l: List = plain_list("FILE RULES", rules_lines(app), app.side.sel_rule);
            List { title: l.title, text: l.text, at: l.at, wrap: true }
        },
        Pane::Flows => plain_list("FLOWS · -n captured", flows_lines(app), app.side.flows.sel),
        Pane::Packets => plain_list(
            own("PACKETS · stream ").concat(decimal_signed(app.side.packets_stream).as_str()).as_str(),
            packets_lines(app),
            app.side.packets.sel,
        ),
        Pane::ApiLogs => plain_list("API LOG · oaita proxy", api_log_index_lines(app), app.side.api.sel),
        Pane::Network => plain_list("WEB · capture archive", webcap_index_lines(app), app.side.web.sel),
        Pane::Pipelines => counted_list(
            "PIPELINES · brush",
            pipelines_lines(app, width),
            app.lists.pipelines.sel,
            app.lists.pipelines.rows.len(),
            1,
        ),
        Pane::BuildEdges => counted_list(
            "BUILD EDGES · ninja/make",
            build_edges_lines(app, width),
            app.lists.edges.sel,
            app.lists.edges.rows.len(),
            1,
        ),
        Pane::Vars => counted_list(
            "VARS · provenance",
            vars_index_lines(app, width),
            app.side.vars.sel,
            app.side.vars.rows.len(),
            0,
        ),
        _ => counted_list(
            "changes",
            changes_lines(app, width),
            app.lists.changes.sel,
            app.lists.changes.rows.len(),
            0,
        ),
    }
}

/// What is known of the row of a list, on the screen.
pub struct DetailV {
    pub title: Seq<char>,
    pub text: Seq<LineV>,
}

impl App {
    /// The pane shows a change.
    pub open spec fn on_changes(self) -> bool {
        self.ui.focus == Pane::Changes || self.ui.focus == Pane::Hunks
    }

    /// What is known of the row at the cursor, but of a change.
    pub open spec fn detail_view(self, area: Rect, g: Given) -> DetailV {
        let d = opt_jv(g.detail);
        match self.ui.focus {
            Pane::Sessions => DetailV {
                title: "BOX · DETAIL"@,
                text: self.box_detail_pane(area.width as int, area.height as int, g.now@),
            },
            Pane::Processes => DetailV { title: "ENVIRONMENT · DETAIL"@, text: self.proc_detail_pane(d) },
            Pane::Outputs => DetailV { title: "OUTPUT · stdout/stderr"@, text: self.outputs_pane().0 },
            Pane::Pipelines => DetailV { title: "PIPELINE · DETAIL"@, text: self.pipeline_detail_pane(d) },
            Pane::BuildEdges => DetailV { title: "EDGE · DETAIL"@, text: self.edge_detail_pane() },
            Pane::Rules => DetailV {
                title: "WHAT IT MATCHES"@,
                text: self.rule_detail_pane(opt_rule(g.rule), g.rules_path@),
            },
            Pane::Flows => DetailV {
                title: "FLOW · DETAIL (tshark -V)"@,
                text: decoded_frame(self.side.flows.detail@, "(no flow selected)"@),
            },
            Pane::Packets => DetailV {
                title: "PACKET · DETAIL (tshark -V)"@,
                text: decoded_frame(self.side.packets.detail@, "(no packet selected)"@),
            },
            Pane::ApiLogs => DetailV { title: "CALL · request + response"@, text: self.api_detail_pane(d) },
            Pane::Network => DetailV { title: "CAPTURE · headers + body"@, text: self.web_detail_pane(d) },
            _ => DetailV { title: "VARIABLE · value + history"@, text: self.var_detail_v().lines },
        }
    }
}

fn detail_of(app: &App, area: Rect, g: &Given) -> (r: (&'static str, Text))
    ensures
        (DetailV { title: r.0@, text: r.1@ }) == app.detail_view(area, *g),
{
    match app.ui.focus {
        Pane::Sessions => ("BOX · DETAIL", box_detail_lines(app, area, &g.now)),
        Pane::Processes => ("ENVIRONMENT · DETAIL", proc_detail_lines(app, &g.detail)),
        Pane::Outputs => ("OUTPUT · stdout/stderr", outputs_lines(app).0),
        Pane::Pipelines => ("PIPELINE · DETAIL", pipeline_detail_lines(app, &g.detail)),
        Pane::BuildEdges => ("EDGE · DETAIL", build_edge_detail_lines(app)),
        Pane::Rules => ("WHAT IT MATCHES", rule_detail_lines(app, &g.rule, g.rules_path.as_str())),
        Pane::Flows => ("FLOW · DETAIL (tshark -V)", flow_detail_lines(app)),
        Pane::Packets => ("PACKET · DETAIL (tshark -V)", packet_detail_lines(app)),
        Pane::ApiLogs => ("CALL · request + response", api_log_detail_lines(app, &g.detail)),
        Pane::Network => ("CAPTURE · headers + body", webcap_detail_lines(app, &g.detail)),
        _ => ("VARIABLE · value + history", var_detail(app).0),
    }
}

/// The smaller of two numbers.
pub open spec fn least(a: int, b: int) -> int {
    if a < b { a } else { b }
}

/// The inner width of a part, one at least.
pub open spec fn inner_width(area: Rect) -> int {
    if area.width > 3 { area.width - 2 } else { 1 }
}

/// How far a text can be scrolled in a part: its last row stays in view.
pub open spec fn scroll_end(text: Seq<LineV>, area: Rect) -> int {
    least(minus(rows_of(text, inner_width(area)), minus(area.height as int, 2)), 65535)
}

/// Where the transcript is scrolled to so that the write at the cursor stands a third of the way
/// down.
pub open spec fn follow_row(text: Seq<LineV>, at: int, area: Rect) -> int {
    let line = least(at, text.len() as int);
    least(
        minus(rows_of(text.take(line), inner_width(area)), minus(area.height as int, 2) / 3),
        scroll_end(text, area),
    )
}

fn end_of_scroll(text: &Text, area: Rect) -> (r: u16)
    ensures
        r == scroll_end(text@, area),
{
    let visible: usize = (area.height as usize).saturating_sub(2);
    let n: usize = text.lines.len();
    assert(lvs(text.lines@).take(n as int) =~= text@);
    let total: usize = wrapped_rows(&text.lines, n, area.width.saturating_sub(2));
    let past: usize = total.saturating_sub(visible);
    if past < 65535 {
        past as u16
    } else {
        65535
    }
}

fn row_to_follow(text: &Text, at: usize, area: Rect) -> (r: u16)
    ensures
        r == follow_row(text@, at as int, area),
{
    let visible: usize = (area.height as usize).saturating_sub(2);
    let n: usize = text.lines.len();
    assert(text@.len() == n);
    let line: usize = if at < n { at } else { n };
    let row: usize = wrapped_rows(&text.lines, line, area.width.saturating_sub(2));
    let want: usize = row.saturating_sub(visible / 3);
    let end: u16 = end_of_scroll(text, area);
    if want < end as usize {
        want as u16
    } else {
        end
    }
}

impl App {
    /// A terminal stands beside the list.
    pub open spec fn embeds(self) -> bool {
        self.terms.in_right && self.terms.ptys@.len() > 0
    }

    /// How far what is known of the row can be scrolled; as before where nothing is shown of it.
    pub open spec fn next_scroll_max(self, area: Rect, g: Given) -> u16 {
        if self.has_list() && !self.on_changes() {
            scroll_end(self.detail_view(area, g).text, area) as u16
        } else {
            self.ui.right_scroll_max
        }
    }

    /// Where the transcript follows the cursor; as before where none is shown.
    pub open spec fn next_follow(self, area: Rect) -> u16 {
        if self.ui.focus == Pane::Outputs {
            follow_row(self.outputs_pane().0, self.outputs_pane().1, area) as u16
        } else {
            self.ui.out_follow_scroll
        }
    }

    /// Where what is known of the row is scrolled to.
    pub open spec fn detail_scroll(self, area: Rect, g: Given) -> u16 {
        let end = self.next_scroll_max(area, g);
        if self.ui.focus == Pane::Outputs && !self.ui.right_focused {
            self.next_follow(area)
        } else if self.ui.right_scroll < end {
            self.ui.right_scroll
        } else {
            end
        }
    }
}

/// A line in a part, without a frame.
pub open spec fn line_in(area: Rect, l: LineV) -> WidgetV {
    WidgetV::Para { area, frame: None, text: seq![l], scroll: 0, wrap: false }
}

fn put_line(out: Canvas, area: Rect, l: Line) -> (r: Canvas)
    ensures
        r@ == out@.push(line_in(area, l@)),
{
    let text: Text = Text::new().ln(l);
    assert(text@ =~= seq![l@]);
    out.put(Widget::Para { area, frame: None, text, scroll: 0, wrap: false })
}

/// A text in the frame of a pane.
pub open spec fn framed(area: Rect, name: Seq<char>, focused: bool, text: Seq<LineV>, scroll: u16, wrap: bool) -> WidgetV {
    WidgetV::Para { area, frame: Some(pane_frame(" "@ + name + " "@, focused)), text, scroll, wrap }
}

fn put_framed(out: Canvas, area: Rect, name: &str, focused: bool, text: Text, scroll: u16, wrap: bool) -> (r: Canvas)
    ensures
        r@ == out@.push(framed(area, name@, focused, text@, scroll, wrap)),
{
    out.put(Widget::Para { area, frame: Some(block(title(name, focused), focused)), text, scroll, wrap })
}

impl App {
    /// The title of the terminal at the cursor.
    pub open spec fn pty_title(self, p: PtyInfo, color: Color, keys: Seq<char>) -> LineV {
        LineV::new().sp(
            "PTY "@ + dec(fit(self.terms.sel + 1) as int) + "/"@ + dec(self.terms.ptys@.len() as int) + " · "@ + (if p.eof {
                "(exited)"@
            } else {
                "live"@
            }),
            fg_bold(color),
        ).raw("   "@).sp(keys, dim())
    }

    /// The terminal at the cursor, alone.
    pub open spec fn pty_picture(self, p: Parts) -> Seq<WidgetV> {
        match self.pty() {
            Some(t) => seq![
                line_in(p.top, self.pty_title(t, Color::Yellow, "F2/F3 cycle · F7 new · F8 kill · F12 detach"@)),
                WidgetV::Screen(p.bottom),
            ],
            None => seq![line_in(p.body, styled_line("no PTY open"@, dim()))],
        }
    }

    /// The terminal beside a list.
    pub open spec fn embedded_picture(self, p: Parts) -> Seq<WidgetV> {
        match self.pty() {
            Some(t) => if self.embeds() {
                seq![
                    line_in(
                        p.top,
                        self.pty_title(
                            t,
                            if self.ui.right_focused { Color::Yellow } else { Color::DarkGray },
                            "F11 full-screen · F8 kill · F2/F3 cycle"@,
                        ),
                    ),
                    WidgetV::Screen(p.bottom),
                ]
            } else {
                Seq::empty()
            },
            None => Seq::empty(),
        }
    }

    /// The diff is one of a structure.
    pub open spec fn binary(self) -> bool {
        self.diff.hunks@ != JV::Null && !self.diff.hunks@.flag("is_text"@)
    }

    /// What is known of the row at the cursor.
    pub open spec fn detail_picture(self, p: Parts, g: Given) -> Seq<WidgetV> {
        if self.embeds() {
            Seq::empty()
        } else if self.on_changes() {
            seq![
                framed(p.top, "path"@, false, self.cd_info_pane(), 0, true),
                framed(
                    p.bottom,
                    if self.binary() { "structural diff"@ } else { "diff"@ },
                    self.ui.focus == Pane::Hunks,
                    self.hunk_pane(),
                    self.diff.hunk_scroll,
                    true,
                ),
            ]
        } else {
            let d = self.detail_view(p.right, g);
            seq![framed(p.right, d.title, self.ui.right_focused, d.text, self.detail_scroll(p.right, g), true)]
        }
    }

    /// The list of the pane.
    pub open spec fn list_picture(self, p: Parts, g: Given) -> WidgetV {
        let l = self.list_view(p.left.width as int, g.now@);
        framed(
            p.left,
            l.title,
            self.list_focused(),
            l.text,
            (scroll_row(l.at as int, l.text.len() as int, p.left.height as int) % 65536) as u16,
            l.wrap,
        )
    }

    /// What is between the bars.
    pub open spec fn body_picture(self, p: Parts, g: Given) -> Seq<WidgetV> {
        if self.ui.focus == Pane::Pty {
            self.pty_picture(p)
        } else if self.ui.focus == Pane::Help {
            seq![framed(p.body, "help · j/k scroll"@, true, help_pane(), self.ui.out_scroll, true)]
        } else {
            self.embedded_picture(p) + seq![self.list_picture(p, g)] + self.detail_picture(p, g)
        }
    }

    /// The bars below.
    pub open spec fn bars_below(self, p: Parts) -> Seq<WidgetV> {
        seq![
            line_in(p.cmdline, self.cmdline_line()),
            line_in(p.fkeybar, fkeys_line(self.fkeys(), self.fkeys().len() as int)),
            line_in(Rect { height: 1, ..p.status }, self.status_line()),
        ]
    }

    /// What is on the screen, from the back to the front.
    pub open spec fn picture(self, p: Parts, g: Given) -> Seq<WidgetV> {
        seq![line_in(p.menubar, self.menubar_line())] + self.body_picture(p, g) + self.bars_below(p) + self.front(p, g)
    }
}

fn title_of_pty(app: &App, p: &PtyInfo, color: Color, keys: &str) -> (r: Line)
    ensures
        r@ == app.pty_title(*p, color, keys@),
{
    let s: String = own("PTY ").concat(decimal(app.terms.sel.saturating_add(1) as u64).as_str()).concat("/").concat(
        decimal(app.terms.ptys.len() as u64).as_str(),
    ).concat(" · ").concat(if p.eof { "(exited)" } else { "live" });
    Line::new().add(s, fg_bold(color)).raw("   ").sp(keys, dim())
}

fn put_pty(out: Canvas, app: &App, p: &Parts) -> (r: Canvas)
    ensures
        r@ == out@ + app.pty_picture(*p),
{
    let ghost o = out@;
    let r: Canvas = match app.cur_pty() {
        Some(t) => {
            let l: Line = title_of_pty(app, &t, Color::Yellow, "F2/F3 cycle · F7 new · F8 kill · F12 detach");
            put_line(out, p.top, l).put(Widget::Screen(p.bottom))
        },
        None => put_line(out, p.body, styled("no PTY open", dim())),
    };
    assert(r@ =~= o + app.pty_picture(*p));
    r
}

fn put_embedded(out: Canvas, app: &App, p: &Parts) -> (r: Canvas)
    ensures
        r@ == out@ + app.embedded_picture(*p),
{
    let ghost o = out@;
    assert(o + Seq::<WidgetV>::empty() =~= o);
    if !(app.terms.in_right && app.terms.ptys.len() > 0) {
        return out;
    }
    match app.cur_pty() {
        Some(t) => {
            let color: Color = if app.ui.right_focused { Color::Yellow } else { Color::DarkGray };
            let l: Line = title_of_pty(app, &t, color, "F11 full-screen · F8 kill · F2/F3 cycle");
            let r: Canvas = put_line(out, p.top, l).put(Widget::Screen(p.bottom));
            assert(r@ =~= o + app.embedded_picture(*p));
            r
        },
        None => out,
    }
}

fn put_list(out: Canvas, app: &App, p: &Parts, g: &Given) -> (r: Canvas)
    ensures
        r@ == out@ + seq![app.list_picture(*p, *g)],
{
    let ghost o = out@;
    let l: List = list_of(app, p.left.width, &g.now);
    let n: usize = l.text.len();
    let scroll: u16 = scroll_for_cursor(l.at, n, p.left.height);
    let focused: bool = match app.ui.focus {
        Pane::Changes => true,
        Pane::Hunks => false,
        _ => !app.ui.right_focused,
    };
    let r: Canvas = put_framed(out, p.left, l.title.as_str(), focused, l.text, scroll, l.wrap);
    assert(r@ =~= o + seq![app.list_picture(*p, *g)]);
    r
}

fn put_change(out: Canvas, app: &App, p: &Parts) -> (r: Canvas)
    ensures
        r@ == out@ + seq![
            framed(p.top, "path"@, false, app.cd_info_pane(), 0, true),
            framed(
                p.bottom,
                if app.binary() { "structural diff"@ } else { "diff"@ },
                app.ui.focus == Pane::Hunks,
                app.hunk_pane(),
                app.diff.hunk_scroll,
                true,
            ),
        ],
{
    let ghost o = out@;
    let is_null: bool = match &app.diff.hunks {
        Json::Null => true,
        _ => false,
    };
    let binary: bool = !is_null && !app.diff.hunks.flag("is_text");
    let a: Canvas = put_framed(out, p.top, "path", false, cd_info_lines(app), 0, true);
    let r: Canvas = put_framed(
        a,
        p.bottom,
        if binary {
            "structural diff"
        } else {
            "diff"
        },
        app.ui.focus == Pane::Hunks,
        hunk_lines(app),
        app.diff.hunk_scroll,
        true,
    );
    assert(r@ =~= o + seq![
        framed(p.top, "path"@, false, app.cd_info_pane(), 0, true),
        framed(
            p.bottom,
            if app.binary() { "structural diff"@ } else { "diff"@ },
            app.ui.focus == Pane::Hunks,
            app.hunk_pane(),
            app.diff.hunk_scroll,
            true,
        ),
    ]);
    r
}

/// What is on the screen, and how far it can be scrolled.
#[derive(Debug)]
pub struct Drawing {
    pub canvas: Canvas,
    pub right_scroll_max: u16,
    pub out_follow_scroll: u16,
}

fn put_detail(out: Canvas, app: &App, p: &Parts, g: &Given) -> (r: Drawing)
    requires
        app.has_list(),
    ensures
        r.canvas@ == out@ + app.detail_picture(*p, *g),
        r.right_scroll_max == app.next_scroll_max(p.right, *g),
        r.out_follow_scroll == app.next_follow(p.right),
{
    let ghost o = out@;
    assert(o + Seq::<WidgetV>::empty() =~= o);
    let embeds: bool = app.terms.in_right && app.terms.ptys.len() > 0;
    if app.ui.focus == Pane::Changes || app.ui.focus == Pane::Hunks {
        let canvas: Canvas = if embeds { out } else { put_change(out, app, p) };
        return Drawing {
            canvas,
            right_scroll_max: app.ui.right_scroll_max,
            out_follow_scroll: app.ui.out_follow_scroll,
        };
    }
    let (name, text): (&str, Text) = detail_of(app, p.right, g);
    let end: u16 = end_of_scroll(&text, p.right);
    let outputs: bool = app.ui.focus == Pane::Outputs;
    let follow: u16 = if outputs { row_to_follow(&text, outputs_lines(app).1, p.right) } else { app.ui.out_follow_scroll };
    let scroll: u16 = if outputs && !app.ui.right_focused {
        follow
    } else if app.ui.right_scroll < end {
        app.ui.right_scroll
    } else {
        end
    };
    let canvas: Canvas = if embeds {
        out
    } else {
        let c: Canvas = put_framed(out, p.right, name, app.ui.right_focused, text, scroll, true);
        assert(c@ =~= o + app.detail_picture(*p, *g));
        c
    };
    Drawing { canvas, right_scroll_max: end, out_follow_scroll: follow }
}

fn put_body(out: Canvas, app: &App, p: &Parts, g: &Given) -> (r: Drawing)
    ensures
        r.canvas@ == out@ + app.body_picture(*p, *g),
        r.right_scroll_max == app.next_scroll_max(p.right, *g),
        r.out_follow_scroll == app.next_follow(p.right),
{
    let ghost o = out@;
    if app.ui.focus == Pane::Pty || app.ui.focus == Pane::Help {
        let canvas: Canvas = if app.ui.focus == Pane::Pty {
            put_pty(out, app, p)
        } else {
            let c: Canvas = put_framed(out, p.body, "help · j/k scroll", true, help_lines(), app.ui.out_scroll, true);
            assert(c@ =~= o + app.body_picture(*p, *g));
            c
        };
        return Drawing {
            canvas,
            right_scroll_max: app.ui.right_scroll_max,
            out_follow_scroll: app.ui.out_follow_scroll,
        };
    }
    let c: Canvas = put_embedded(out, app, p);
    let c: Canvas = put_list(c, app, p, g);
    let r: Drawing = put_detail(c, app, p, g);
    assert(r.canvas@ =~= o + app.body_picture(*p, *g));
    r
}

fn put_bars(out: Canvas, app: &App, p: &Parts) -> (r: Canvas)
    ensures
        r@ == out@ + app.bars_below(*p),
{
    let ghost o = out@;
    let bar: Rect = Rect { x: p.status.x, y: p.status.y, width: p.status.width, height: 1 };
    let r: Canvas = put_line(
        put_line(put_line(out, p.cmdline, cmdline_spans(app)), p.fkeybar, fkeybar_spans(app)),
        bar,
        status_spans(app),
    );
    assert(r@ =~= o + app.bars_below(*p));
    r
}

impl App {
    /// The dialog, where one is open.
    pub open spec fn front(self, p: Parts, g: Given) -> Seq<WidgetV> {
        match self.ui.modal {
            Some(m) => self.modal_picture(p.body, m@, g.conf@),
            None => Seq::empty(),
        }
    }
}

fn put_modal(out: Canvas, app: &App, p: &Parts, g: &Given) -> (r: Canvas)
    requires
        p.body.fits(),
        app.ui.modal is Some ==> 20 <= p.body.width,
    ensures
        r@ == out@ + app.front(*p, *g),
{
    match &app.ui.modal {
        Some(m) => draw_modal(out, p.body, m, app, g.conf.as_str()),
        None => {
            assert(out@ =~= out@ + Seq::<WidgetV>::empty());
            out
        },
    }
}

/// Puts everything on the screen, in the parts that it has been divided into.
pub fn draw_parts(app: &App, p: &Parts, g: &Given) -> (r: Drawing)
    requires
        p.body.fits(),
        app.ui.modal is Some ==> 20 <= p.body.width,
    ensures
        r.canvas@ == app.picture(*p, *g),
        r.right_scroll_max == app.next_scroll_max(p.right, *g),
        r.out_follow_scroll == app.next_follow(p.right),
{
    let a: Canvas = put_line(Canvas::new(), p.menubar, menubar_spans(app));
    assert(a@ =~= seq![line_in(p.menubar, app.menubar_line())]);
    let d: Drawing = put_body(a, app, p, g);
    let c: Canvas = put_bars(d.canvas, app, p);
    let canvas: Canvas = put_modal(c, app, p, g);
    Drawing { canvas, right_scroll_max: d.right_scroll_max, out_follow_scroll: d.out_follow_scroll }
}

/// The screen has been divided. Below each other are the bar at the top, of one line, what is
/// between the bars, and three lines at the bottom; on a screen of less than seven lines it is left
/// open which of them are without theirs. Between the bars are the list, of nearest 45 parts in a
/// hundred, and what is known of its row beside it. A terminal has a line for its title above it,
/// what is known of a change four lines.
pub open spec fn divided(app: App, p: Parts, area: Rect) -> bool {
    &&& in_rows(seq![p.menubar, p.body, p.cmdline, p.fkeybar, p.status], area)
    &&& app.has_list() ==> in_columns(p.left, p.right, p.body)
    &&& app.ui.focus == Pane::Pty ==> halved(p.top, p.bottom, p.body, 1, 1)
    &&& app.has_list() ==> if app.terms.in_right && app.terms.ptys@.len() > 0 {
        halved(p.top, p.bottom, p.right, 1, 1)
    } else {
        halved(p.top, p.bottom, p.right, 4, 3)
    }
}

/// Divides the screen.
pub fn divide(app: &App, area: Rect) -> (r: Parts)
    requires
        area.fits(),
    ensures
        divided(*app, r, area),
        r.body.fits(),
        r.body.width == area.width,
{
    let rows: Vec<Rect> = divide_rows(area);
    let body: Rect = rows[1];
    assert(rows@[1].within(area));
    assert(seq![rows@[0], rows@[1], rows@[2], rows@[3], rows@[4]] =~= rows@);
    let mut left: Rect = body;
    let mut right: Rect = body;
    let mut whole: Rect = body;
    let lists: bool = app.ui.focus != Pane::Pty && app.ui.focus != Pane::Help;
    if lists {
        let cols: (Rect, Rect) = divide_columns(body);
        left = cols.0;
        right = cols.1;
        whole = right;
    }
    let terminal: bool = !lists || (app.terms.in_right && app.terms.ptys.len() > 0);
    let parts: (Rect, Rect) = if terminal {
        divide_below(whole, 1, 1)
    } else {
        divide_below(whole, 4, 3)
    };
    Parts {
        menubar: rows[0],
        body,
        cmdline: rows[2],
        fkeybar: rows[3],
        status: rows[4],
        left,
        right,
        top: parts.0,
        bottom: parts.1,
    }
}

/// Puts everything on a screen of that size; what can be scrolled is noted. However the screen was
/// divided, what is shown is what belongs in those parts.
pub fn draw(app: &mut App, area: Rect, g: &Given) -> (r: Canvas)
    requires
        area.fits(),
        old(app).ui.modal is Some ==> 20 <= area.width,
    ensures
        exists|p: Parts|
            {
                &&& #[trigger] divided(*old(app), p, area)
                &&& r@ == old(app).picture(p, *g)
                &&& *final(app) == (App {
                    ui: (Ui {
                        right_scroll_max: old(app).next_scroll_max(p.right, *g),
                        out_follow_scroll: old(app).next_follow(p.right),
                        ..old(app).ui
                    }),
                    ..*old(app)
                })
            },
{
    let p: Parts = divide(app, area);
    let d: Drawing = draw_parts(app, &p, g);
    app.ui.right_scroll_max = d.right_scroll_max;
    app.ui.out_follow_scroll = d.out_follow_scroll;
    assert(divided(*old(app), p, area));
    d.canvas
}

impl App {
    /// What the engine is asked for what is known of the row at the cursor.
    pub open spec fn detail_call_v(self) -> Option<(Seq<char>, Seq<JV>)> {
        let ask = |verb: Seq<char>, sid: Seq<char>, id: int| Some((verb, seq![JV::Str(sid), JV::Int(id)]));
        match self.sid() {
            None => None,
            Some(sid) => match self.ui.focus {
                Pane::Processes => if self.lists.processes.sel < self.procs().len() && self.procs()[self.lists.processes.sel as int].rid
                    >= 0 {
                    ask("process_env"@, sid, self.procs()[self.lists.processes.sel as int].rid)
                } else {
                    None
                },
                Pane::Pipelines => if self.lists.pipelines.sel < self.lists.pipelines.rows@.len() {
                    ask(
                        "review.pipeline_context"@,
                        sid,
                        self.lists.pipelines.rows@[self.lists.pipelines.sel as int]@.i64_or("id"@, 0),
                    )
                } else {
                    None
                },
                Pane::ApiLogs => if self.side.api.sel < self.side.api.rows@.len() {
                    ask("api_log_detail"@, sid, self.side.api.rows@[self.side.api.sel as int]@.i64_or("id"@, -1))
                } else {
                    None
                },
                Pane::Network => if self.side.web.sel < self.side.web.rows@.len() {
                    ask("webcap_detail"@, sid, self.side.web.rows@[self.side.web.sel as int]@.i64_or("id"@, -1))
                } else {
                    None
                },
                _ => None,
            },
        }
    }

    /// What the engine is to be asked before the screen is drawn.
    pub fn detail_call(&self) -> (r: Option<(&'static str, Vec<Json>)>)
        ensures
            match r {
                Some((verb, args)) => self.detail_call_v() == Some((verb@, jvs(args@))),
                None => self.detail_call_v() is None,
            },
    {
        let sid: &str = match self.cur_sid() {
            Some(s) => s,
            None => {
                return None;
            },
        };
        let found: Option<(&'static str, i64)> = match self.ui.focus {
            Pane::Processes => {
                let i: usize = self.lists.processes.sel;
                if i < self.lists.processes.rows.len() {
                    assert(self.procs()[i as int] == crate::procpane::proc_of(self.lists.processes.rows@[i as int]@));
                    let rid: i64 = self.lists.processes.rows[i].i64_or("rid", -1);
                    if rid >= 0 {
                        Some(("process_env", rid))
                    } else {
                        None
                    }
                } else {
                    None
                }
            },
            Pane::Pipelines => {
                let i: usize = self.lists.pipelines.sel;
                if i < self.lists.pipelines.rows.len() {
                    Some(("review.pipeline_context", self.lists.pipelines.rows[i].i64_or("id", 0)))
                } else {
                    None
                }
            },
            Pane::ApiLogs => {
                let i: usize = self.side.api.sel;
                if i < self.side.api.rows.len() {
                    Some(("api_log_detail", self.side.api.rows[i].i64_or("id", -1)))
                } else {
                    None
                }
            },
            Pane::Network => {
                let i: usize = self.side.web.sel;
                if i < self.side.web.rows.len() {
                    Some(("webcap_detail", self.side.web.rows[i].i64_or("id", -1)))
                } else {
                    None
                }
            },
            _ => None,
        };
        match found {
            Some((verb, id)) => Some((verb, list2(Json::text(sid), Json::Int(id)))),
            None => None,
        }
    }
}

} // verus!
