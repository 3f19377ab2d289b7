//! What a box called: models, the web, and the frames of its network.

use vstd::prelude::*;

use crate::app::App;
use crate::json::Json;
#[allow(unused_imports)]
use crate::json::{jvs, JV};
#[allow(unused_imports)]
use crate::loads::opt_jv;
use crate::render::{each_raw_line, millis_text, raw_texts, time_label};
#[allow(unused_imports)]
use crate::render::{as_they_are, clock, raw_listed, three_decimals};
use crate::style::{bold, cursor, fg, fg_bold, fg_italic, plain, raw, styled, Color, Line, Style, Text};
#[allow(unused_imports)]
use crate::style::{raw_line, styled_line, LineV};
use crate::text::{decimal, decimal_signed, own, pad_left, pad_right, same, take_chars};
#[allow(unused_imports)]
use crate::text::{dec, first, padl, padr, sdec, strs};

verus! {

/// The colour of a row by the status of its answer.
#[verifier::allow_in_spec]
pub fn status_color(status: i64) -> (r: Color)
    returns
        (if status >= 400 {
            Color::Red
        } else if 200 <= status && status < 300 {
            Color::Reset
        } else {
            Color::Yellow
        }),
{
    if status >= 400 {
        Color::Red
    } else if 200 <= status && status < 300 {
        Color::Reset
    } else {
        Color::Yellow
    }
}

/// A call of a model in the list.
pub open spec fn api_line(r: JV, at_cursor: bool) -> LineV {
    let status = r.i64_or("status"@, 0);
    styled_line(
        padr(clock(r.num_at("ts"@)), 8) + " "@ + padr(r.str_or("method"@, "?"@), 6) + " "@ + padr(sdec(status), 5)
            + " "@ + padr(first(r.str_or("path"@, ""@), 24), 24) + " "@ + padr(first(r.str_or("model"@, ""@), 12), 12)
            + " "@ + padl(sdec(r.i64_or("resp_len"@, 0)), 7),
        if at_cursor { cursor() } else { fg(status_color(status as i64)) },
    )
}

fn api_row(r: &Json, at_cursor: bool) -> (l: Line)
    ensures
        l@ == api_line(r@, at_cursor),
{
    let status: i64 = r.i64_or("status", 0);
    let t: String = pad_right(time_label(&r.num_at("ts")).as_str(), 8).concat(" ").concat(
        pad_right(r.str_or("method", "?"), 6).as_str(),
    ).concat(" ").concat(pad_right(decimal_signed(status).as_str(), 5).as_str()).concat(" ").concat(
        pad_right(take_chars(r.str_or("path", ""), 24).as_str(), 24).as_str(),
    ).concat(" ").concat(pad_right(take_chars(r.str_or("model", ""), 12).as_str(), 12).as_str()).concat(" ").concat(
        pad_left(decimal_signed(r.i64_or("resp_len", 0)).as_str(), 7).as_str(),
    );
    styled(t.as_str(), if at_cursor { cursor() } else { fg(status_color(status)) })
}

impl App {
    /// The rows of the calls of models.
    pub open spec fn api_rows(self) -> Seq<LineV> {
        let rows = jvs(self.side.api.rows@);
        Seq::new(rows.len(), |i: int| api_line(rows[i], i == self.side.api.sel))
    }

    /// The list of the calls of models; how the endpoint is set up where there are none.
    pub open spec fn api_pane(self) -> Seq<LineV> {
        seq![
            styled_line(
                padr("Time"@, 8) + " "@ + padr("Method"@, 6) + " "@ + padr("Stat"@, 5) + " "@ + padr("Path"@, 24) + " "@
                    + padr("Model"@, 12) + " "@ + padl("Bytes"@, 7),
                bold(),
            ),
        ] + (if self.side.api.rows@.len() > 0 {
            self.api_rows()
        } else if self.side.api_note@.len() == 0 {
            seq![
                raw_line(
                    "(no API calls — this box wasn't launched with --api, or hasn't made one yet)"@,
                ),
            ]
        } else {
            raw_listed(strs(self.side.api_note@), ""@)
        })
    }
}

/// The list of the calls of models.
pub fn api_log_index_lines(app: &App) -> (r: Text)
    ensures
        r@ == app.api_pane(),
{
    let head: String = pad_right("Time", 8).concat(" ").concat(pad_right("Method", 6).as_str()).concat(" ").concat(
        pad_right("Stat", 5).as_str(),
    ).concat(" ").concat(pad_right("Path", 24).as_str()).concat(" ").concat(pad_right("Model", 12).as_str()).concat(
        " ",
    ).concat(pad_left("Bytes", 7).as_str());
    let mut out: Text = Text::new().ln(styled(head.as_str(), bold()));
    let ghost h = out@;
    let rows: &Vec<Json> = &app.side.api.rows;
    if rows.len() == 0 {
        if app.side.api_note.len() == 0 {
            out = out.ln(
                raw("(no API calls — this box wasn't launched with --api, or hasn't made one yet)"),
            );
        } else {
            out = out.and(raw_texts(&app.side.api_note, ""));
        }
        assert(out@ =~= app.api_pane());
        return out;
    }
    let ghost all = app.api_rows();
    assert(h + all.take(0) =~= h);
    let mut i: usize = 0;
    while i < rows.len()
        invariant
            i <= rows@.len(),
            rows == &app.side.api.rows,
            all == app.api_rows(),
            out@ == h + all.take(i as int),
        decreases rows@.len() - i,
    {
        assert(jvs(rows@)[i as int] == rows@[i as int]@);
        out = out.ln(api_row(&rows[i], i == app.side.api.sel));
        i += 1;
        assert(out@ =~= h + all.take(i as int));
    }
    assert(all.take(all.len() as int) =~= all);
    assert(out@ =~= app.api_pane());
    out
}

/// What was sent to a model and what came back.
pub open spec fn exchange(d: JV) -> Seq<LineV> {
    seq![styled_line("REQUEST"@, fg_bold(Color::Yellow))] + as_they_are(d.str_or("req"@, ""@)) + seq![
        raw_line(""@),
        styled_line("RESPONSE"@, fg_bold(Color::Green)),
    ] + as_they_are(d.str_or("resp"@, ""@))
}

/// What is shown of an exchange that could not be had.
pub open spec fn offline() -> Seq<LineV> {
    seq![raw_line("(could not load detail — engine offline?)"@)]
}

impl App {
    /// The call of a model at the cursor, with what the engine gave of it.
    pub open spec fn api_detail_pane(self, detail: Option<JV>) -> Seq<LineV> {
        let i = self.side.api.sel as int;
        if i >= self.side.api.rows@.len() {
            seq![raw_line("(no call selected)"@)]
        } else if self.sid() is None {
            seq![raw_line("(no box focused)"@)]
        } else {
            let row = self.side.api.rows@[i]@;
            seq![
                raw_line(
                    row.str_or("path"@, ""@) + " · model="@ + row.str_or("model"@, ""@) + " · status="@ + sdec(
                        row.i64_or("status"@, 0),
                    ) + " · stream="@ + (if row.i64_or("stream"@, 0) != 0 { "true"@ } else { "false"@ }),
                ),
                raw_line(""@),
            ] + (match detail {
                Some(d) => exchange(d),
                None => offline(),
            })
        }
    }
}

/// The call of a model at the cursor, with what the engine gave of it.
pub fn api_log_detail_lines(app: &App, detail: &Option<Json>) -> (r: Text)
    ensures
        r@ == app.api_detail_pane(opt_jv(*detail)),
{
    if app.side.api.sel >= app.side.api.rows.len() {
        let t: Text = Text::new().ln(raw("(no call selected)"));
        assert(t@ =~= app.api_detail_pane(opt_jv(*detail)));
        return t;
    }
    if app.cur_sid().is_none() {
        let t: Text = Text::new().ln(raw("(no box focused)"));
        assert(t@ =~= app.api_detail_pane(opt_jv(*detail)));
        return t;
    }
    let row: &Json = &app.side.api.rows[app.side.api.sel];
    let s: String = own(row.str_or("path", "")).concat(" · model=").concat(row.str_or("model", "")).concat(
        " · status=",
    ).concat(decimal_signed(row.i64_or("status", 0)).as_str()).concat(" · stream=").concat(
        if row.i64_or("stream", 0) != 0 {
            "true"
        } else {
            "false"
        },
    );
    let t: Text = Text::new().ln(raw(s.as_str())).ln(raw(""));
    let ghost h = t@;
    match detail {
        Some(d) => {
            let r: Text = t.ln(styled("REQUEST", fg_bold(Color::Yellow))).and(each_raw_line(d.str_or("req", ""))).ln(
                raw(""),
            ).ln(styled("RESPONSE", fg_bold(Color::Green))).and(each_raw_line(d.str_or("resp", "")));
            assert(r@ =~= h + exchange(d@));
            assert(r@ =~= app.api_detail_pane(opt_jv(*detail)));
            r
        },
        None => {
            let r: Text = t.ln(raw("(could not load detail — engine offline?)"));
            assert(r@ =~= app.api_detail_pane(opt_jv(*detail)));
            r
        },
    }
}

/// A web capture in the list.
pub open spec fn web_line(r: JV, at_cursor: bool) -> LineV {
    let status = r.i64_or("status"@, 0);
    styled_line(
        padr(clock(r.num_at("ts"@)), 8) + " "@ + padr(r.str_or("method"@, "?"@), 6) + " "@ + padr(sdec(status), 4)
            + " "@ + padr(first(r.str_or("mime"@, ""@), 16), 16) + " "@ + padl(sdec(r.i64_or("resp_len"@, 0)), 7) + " "@
            + (if r.i64_or("truncated"@, 0) != 0 { "‡"@ } else { ""@ }) + r.str_or("url"@, ""@),
        if at_cursor { cursor() } else { fg(status_color(status as i64)) },
    )
}

fn web_row(r: &Json, at_cursor: bool) -> (l: Line)
    ensures
        l@ == web_line(r@, at_cursor),
{
    let status: i64 = r.i64_or("status", 0);
    let t: String = pad_right(time_label(&r.num_at("ts")).as_str(), 8).concat(" ").concat(
        pad_right(r.str_or("method", "?"), 6).as_str(),
    ).concat(" ").concat(pad_right(decimal_signed(status).as_str(), 4).as_str()).concat(" ").concat(
        pad_right(take_chars(r.str_or("mime", ""), 16).as_str(), 16).as_str(),
    ).concat(" ").concat(pad_left(decimal_signed(r.i64_or("resp_len", 0)).as_str(), 7).as_str()).concat(" ").concat(
        if r.i64_or("truncated", 0) != 0 {
            "‡"
        } else {
            ""
        },
    ).concat(r.str_or("url", ""));
    styled(t.as_str(), if at_cursor { cursor() } else { fg(status_color(status)) })
}

impl App {
    /// The rows of the web captures.
    pub open spec fn web_rows(self) -> Seq<LineV> {
        let rows = jvs(self.side.web.rows@);
        Seq::new(rows.len(), |i: int| web_line(rows[i], i == self.side.web.sel))
    }

    /// The list of the web captures.
    pub open spec fn web_pane(self) -> Seq<LineV> {
        seq![
            styled_line(
                padr("Time"@, 8) + " "@ + padr("Method"@, 6) + " "@ + padr("Stat"@, 4) + " "@ + padr("Type"@, 16) + " "@
                    + padl("Bytes"@, 7) + " "@ + "URL"@,
                bold(),
            ),
        ] + (if self.side.web.rows@.len() > 0 {
            self.web_rows()
        } else {
            seq![
                raw_line(
                    "(no web captures — launch this box with --webcap on --net tap, or use the browser, then browse)"@,
                ),
            ]
        })
    }
}

/// The list of the web captures.
pub fn webcap_index_lines(app: &App) -> (r: Text)
    ensures
        r@ == app.web_pane(),
{
    let head: String = pad_right("Time", 8).concat(" ").concat(pad_right("Method", 6).as_str()).concat(" ").concat(
        pad_right("Stat", 4).as_str(),
    ).concat(" ").concat(pad_right("Type", 16).as_str()).concat(" ").concat(pad_left("Bytes", 7).as_str()).concat(
        " ",
    ).concat("URL");
    let mut out: Text = Text::new().ln(styled(head.as_str(), bold()));
    let ghost h = out@;
    let rows: &Vec<Json> = &app.side.web.rows;
    if rows.len() == 0 {
        out = out.ln(
            raw(
                "(no web captures — launch this box with --webcap on --net tap, or use the browser, then browse)",
            ),
        );
        assert(out@ =~= app.web_pane());
        return out;
    }
    let ghost all = app.web_rows();
    assert(h + all.take(0) =~= h);
    let mut i: usize = 0;
    while i < rows.len()
        invariant
            i <= rows@.len(),
            rows == &app.side.web.rows,
            all == app.web_rows(),
            out@ == h + all.take(i as int),
        decreases rows@.len() - i,
    {
        assert(jvs(rows@)[i as int] == rows@[i as int]@);
        out = out.ln(web_row(&rows[i], i == app.side.web.sel));
        i += 1;
        assert(out@ =~= h + all.take(i as int));
    }
    assert(all.take(all.len() as int) =~= all);
    assert(out@ =~= app.web_pane());
    out
}

/// A part of a web capture; nothing where it is empty.
pub open spec fn web_part(title: Seq<char>, color: Color, body: Seq<char>) -> Seq<LineV> {
    if body.len() == 0 {
        Seq::empty()
    } else {
        seq![styled_line(title, fg_bold(color))] + as_they_are(body) + seq![raw_line(""@)]
    }
}

fn add_web_part(out: Text, title: &str, color: Color, body: &str) -> (r: Text)
    ensures
        r@ == out@ + web_part(title@, color, body@),
{
    let ghost o = out@;
    if body.unicode_len() == 0 {
        assert(o + Seq::<LineV>::empty() =~= o);
        return out;
    }
    let t: Text = out.ln(styled(title, fg_bold(color))).and(each_raw_line(body)).ln(raw(""));
    assert(t@ =~= o + web_part(title@, color, body@));
    t
}

/// A web capture behind its heading.
pub open spec fn with_capture(head: Seq<LineV>, d: JV) -> Seq<LineV> {
    head + web_part("REQUEST HEADERS"@, Color::Yellow, d.str_or("req_headers"@, ""@)) + web_part(
        "REQUEST BODY"@,
        Color::Yellow,
        d.str_or("req_body"@, ""@),
    ) + web_part("RESPONSE HEADERS"@, Color::Green, d.str_or("resp_headers"@, ""@)) + web_part(
        if d.i64_or("truncated"@, 0) != 0 { "RESPONSE BODY (truncated at cap)"@ } else { "RESPONSE BODY"@ },
        Color::Green,
        d.str_or("resp_body"@, ""@),
    )
}

/// The heading of a web capture.
pub open spec fn web_head(row: JV) -> Seq<LineV> {
    seq![
        raw_line(row.str_or("method"@, "?"@) + " "@ + row.str_or("url"@, ""@)),
        raw_line("status="@ + sdec(row.i64_or("status"@, 0)) + " · type="@ + row.str_or("mime"@, ""@)),
        raw_line(""@),
    ]
}

impl App {
    /// The web capture at the cursor, with what the engine gave of it.
    pub open spec fn web_detail_pane(self, detail: Option<JV>) -> Seq<LineV> {
        let i = self.side.web.sel as int;
        if i >= self.side.web.rows@.len() {
            seq![raw_line("(no capture selected)"@)]
        } else if self.sid() is None {
            seq![raw_line("(no box focused)"@)]
        } else {
            let head = web_head(self.side.web.rows@[i]@);
            match detail {
                Some(d) => with_capture(head, d),
                None => head + offline(),
            }
        }
    }
}

/// The web capture at the cursor, with what the engine gave of it.
pub fn webcap_detail_lines(app: &App, detail: &Option<Json>) -> (r: Text)
    ensures
        r@ == app.web_detail_pane(opt_jv(*detail)),
{
    if app.side.web.sel >= app.side.web.rows.len() {
        let t: Text = Text::new().ln(raw("(no capture selected)"));
        assert(t@ =~= app.web_detail_pane(opt_jv(*detail)));
        return t;
    }
    if app.cur_sid().is_none() {
        let t: Text = Text::new().ln(raw("(no box focused)"));
        assert(t@ =~= app.web_detail_pane(opt_jv(*detail)));
        return t;
    }
    let row: &Json = &app.side.web.rows[app.side.web.sel];
    let a: String = own(row.str_or("method", "?")).concat(" ").concat(row.str_or("url", ""));
    let b: String = own("status=").concat(decimal_signed(row.i64_or("status", 0)).as_str()).concat(" · type=").concat(
        row.str_or("mime", ""),
    );
    let t: Text = Text::new().ln(raw(a.as_str())).ln(raw(b.as_str())).ln(raw(""));
    assert(t@ =~= web_head(row@));
    match detail {
        Some(d) => {
            let t: Text = add_web_part(t, "REQUEST HEADERS", Color::Yellow, d.str_or("req_headers", ""));
            let t: Text = add_web_part(t, "REQUEST BODY", Color::Yellow, d.str_or("req_body", ""));
            let t: Text = add_web_part(t, "RESPONSE HEADERS", Color::Green, d.str_or("resp_headers", ""));
            let title: &str = if d.i64_or("truncated", 0) != 0 {
                "RESPONSE BODY (truncated at cap)"
            } else {
                "RESPONSE BODY"
            };
            add_web_part(t, title, Color::Green, d.str_or("resp_body", ""))
        },
        None => {
            let r: Text = t.ln(raw("(could not load detail — engine offline?)"));
            assert(r@ =~= web_head(row@) + offline());
            r
        },
    }
}

/// The style of the status of an answer.
pub open spec fn code_style(status: Seq<char>) -> Style {
    if status.len() > 0 && status[0] == '2' {
        fg(Color::Green)
    } else if status.len() > 0 && status[0] == '3' {
        fg(Color::Cyan)
    } else if status.len() > 0 && (status[0] == '4' || status[0] == '5') {
        fg(Color::Red)
    } else {
        plain()
    }
}

fn style_of_code(status: &str) -> (r: Style)
    ensures
        r == code_style(status@),
{
    if status.unicode_len() == 0 {
        return plain();
    }
    let c: char = status.get_char(0);
    if c == '2' {
        fg(Color::Green)
    } else if c == '3' {
        fg(Color::Cyan)
    } else if c == '4' || c == '5' {
        fg(Color::Red)
    } else {
        plain()
    }
}

/// A flow in the list.
pub open spec fn flow_line(r: JV) -> LineV {
    let method = r.str_or("method"@, ""@);
    let status = r.str_or("status"@, ""@);
    let host = r.str_or("host"@, ""@);
    let plain_http = method.len() > 0 || status.len() > 0;
    let a = LineV::new().sp(
        (if plain_http { "R"@ } else { "T"@ }) + "  "@,
        fg(if plain_http { Color::Green } else { Color::Cyan }),
    ).sp(padl(three_decimals(r.num_at("t"@)), 7) + "s  "@, fg(Color::DarkGray)).sp(
        if host.len() > 0 { host } else { r.str_or("sni"@, ""@) },
        bold(),
    );
    let b = if method.len() > 0 {
        a.sp("  "@ + method + " "@, fg(Color::Yellow)).raw(first(r.str_or("uri"@, ""@), 60))
    } else {
        a
    };
    if status.len() > 0 { b.sp("  → "@ + status, code_style(status)) } else { b }
}

fn flow_row(r: &Json) -> (l: Line)
    ensures
        l@ == flow_line(r@),
{
    let method: &str = r.str_or("method", "");
    let status: &str = r.str_or("status", "");
    let host: &str = r.str_or("host", "");
    let http: bool = method.unicode_len() > 0 || status.unicode_len() > 0;
    let a: Line = Line::new().add(
        own(if http { "R" } else { "T" }).concat("  "),
        fg(if http { Color::Green } else { Color::Cyan }),
    ).add(
        pad_left(millis_text(&r.num_at("t")).as_str(), 7).concat("s  "),
        fg(Color::DarkGray),
    ).sp(
        if host.unicode_len() > 0 {
            host
        } else {
            r.str_or("sni", "")
        },
        bold(),
    );
    let b: Line = if method.unicode_len() > 0 {
        a.add(own("  ").concat(method).concat(" "), fg(Color::Yellow)).raw(take_chars(r.str_or("uri", ""), 60).as_str())
    } else {
        a
    };
    if status.unicode_len() > 0 {
        b.add(own("  → ").concat(status), style_of_code(status))
    } else {
        b
    }
}

impl App {
    /// The list of the flows.
    pub open spec fn flows_pane(self) -> Seq<LineV> {
        if self.side.flows.rows@.len() == 0 {
            seq![
                styled_line(
                    "no flows — `sarun run -n -- …` writes pcapng + keylog under state_home/flows/box<id>/"@,
                    fg_italic(Color::DarkGray),
                ),
            ]
        } else {
            jvs(self.side.flows.rows@).map_values(|r: JV| flow_line(r))
        }
    }
}

/// The list of the flows.
pub fn flows_lines(app: &App) -> (r: Text)
    ensures
        r@ == app.flows_pane(),
{
    let rows: &Vec<Json> = &app.side.flows.rows;
    let mut out: Text = Text::new();
    if rows.len() == 0 {
        out = out.ln(
            styled(
                "no flows — `sarun run -n -- …` writes pcapng + keylog under state_home/flows/box<id>/",
                fg_italic(Color::DarkGray),
            ),
        );
        assert(out@ =~= app.flows_pane());
        return out;
    }
    let ghost all = app.flows_pane();
    let mut i: usize = 0;
    while i < rows.len()
        invariant
            i <= rows@.len() == all.len(),
            rows@.len() > 0,
            rows == &app.side.flows.rows,
            all == app.flows_pane(),
            out@ == all.take(i as int),
        decreases rows@.len() - i,
    {
        assert(jvs(rows@)[i as int] == rows@[i as int]@);
        out = out.ln(flow_row(&rows[i]));
        i += 1;
        assert(out@ =~= all.take(i as int));
    }
    assert(all.take(all.len() as int) =~= all);
    out
}

/// A decoded frame, or what is shown in its place.
pub open spec fn decoded_frame(text: Seq<char>, none: Seq<char>) -> Seq<LineV> {
    if text.len() == 0 { seq![styled_line(none, fg_italic(Color::DarkGray))] } else { as_they_are(text) }
}

fn frame_lines(text: &str, none: &str) -> (r: Text)
    ensures
        r@ == decoded_frame(text@, none@),
{
    if text.unicode_len() == 0 {
        let t: Text = Text::new().ln(styled(none, fg_italic(Color::DarkGray)));
        assert(t@ =~= decoded_frame(text@, none@));
        t
    } else {
        each_raw_line(text)
    }
}

/// The decoded frame of the flow at the cursor.
pub fn flow_detail_lines(app: &App) -> (r: Text)
    ensures
        r@ == decoded_frame(app.side.flows.detail@, "(no flow selected)"@),
{
    frame_lines(app.side.flows.detail.as_str(), "(no flow selected)")
}

/// The decoded frame of the packet at the cursor.
pub fn packet_detail_lines(app: &App) -> (r: Text)
    ensures
        r@ == decoded_frame(app.side.packets.detail@, "(no packet selected)"@),
{
    frame_lines(app.side.packets.detail.as_str(), "(no packet selected)")
}

/// The colour of a protocol.
pub open spec fn proto_color(p: Seq<char>) -> Color {
    if p == "HTTP"@ || p == "HTTP/2"@ {
        Color::Yellow
    } else if p == "TLSv1.2"@ || p == "TLSv1.3"@ || p == "TLS"@ {
        Color::Cyan
    } else if p == "TCP"@ {
        Color::DarkGray
    } else {
        Color::White
    }
}

fn color_of_proto(p: &str) -> (r: Color)
    ensures
        r == proto_color(p@),
{
    if same(p, "HTTP") || same(p, "HTTP/2") {
        Color::Yellow
    } else if same(p, "TLSv1.2") || same(p, "TLSv1.3") || same(p, "TLS") {
        Color::Cyan
    } else if same(p, "TCP") {
        Color::DarkGray
    } else {
        Color::White
    }
}

/// A packet in the list.
pub open spec fn packet_line(r: JV) -> LineV {
    LineV::new().sp(padl(dec(r.u64_or("frame"@, 0)), 5) + "  "@, fg(Color::DarkGray)).sp(
        padl(three_decimals(r.num_at("t"@)), 7) + "s  "@,
        fg(Color::DarkGray),
    ).sp(
        padl(r.str_or("src"@, ""@), 15) + " → "@ + padr(r.str_or("dst"@, ""@), 15) + "  "@,
        fg(Color::White),
    ).sp(padr(r.str_or("proto"@, ""@), 9) + " "@, fg_bold(proto_color(r.str_or("proto"@, ""@)))).sp(
        padl(dec(r.u64_or("len"@, 0)), 5) + "  "@,
        fg(Color::DarkGray),
    ).raw(first(r.str_or("info"@, ""@), 80))
}

fn packet_row(r: &Json) -> (l: Line)
    ensures
        l@ == packet_line(r@),
{
    let proto: &str = r.str_or("proto", "");
    Line::new().add(pad_left(decimal(r.u64_or("frame", 0)).as_str(), 5).concat("  "), fg(Color::DarkGray)).add(
        pad_left(millis_text(&r.num_at("t")).as_str(), 7).concat("s  "),
        fg(Color::DarkGray),
    ).add(
        pad_left(r.str_or("src", ""), 15).concat(" → ").concat(pad_right(r.str_or("dst", ""), 15).as_str()).concat("  "),
        fg(Color::White),
    ).add(pad_right(proto, 9).concat(" "), fg_bold(color_of_proto(proto))).add(
        pad_left(decimal(r.u64_or("len", 0)).as_str(), 5).concat("  "),
        fg(Color::DarkGray),
    ).raw(take_chars(r.str_or("info", ""), 80).as_str())
}

impl App {
    /// The list of the packets.
    pub open spec fn packets_pane(self) -> Seq<LineV> {
        if self.side.packets.rows@.len() == 0 {
            seq![styled_line("no packets in this stream"@, fg_italic(Color::DarkGray))]
        } else {
            jvs(self.side.packets.rows@).map_values(|r: JV| packet_line(r))
        }
    }
}

/// The list of the packets.
pub fn packets_lines(app: &App) -> (r: Text)
    ensures
        r@ == app.packets_pane(),
{
    let rows: &Vec<Json> = &app.side.packets.rows;
    let mut out: Text = Text::new();
    if rows.len() == 0 {
        out = out.ln(styled("no packets in this stream", fg_italic(Color::DarkGray)));
        assert(out@ =~= app.packets_pane());
        return out;
    }
    let ghost all = app.packets_pane();
    let mut i: usize = 0;
    while i < rows.len()
        invariant
            i <= rows@.len() == all.len(),
            rows@.len() > 0,
            rows == &app.side.packets.rows,
            all == app.packets_pane(),
            out@ == all.take(i as int),
        decreases rows@.len() - i,
    {
        assert(jvs(rows@)[i as int] == rows@[i as int]@);
        out = out.ln(packet_row(&rows[i]));
        i += 1;
        assert(out@ =~= all.take(i as int));
    }
    assert(all.take(all.len() as int) =~= all);
    out
}

} // verus!
