//! The pipelines that ran in a box and the targets that were built in it: the lists, and what is
//! known of the one at the cursor.

use vstd::prelude::*;

use crate::app::App;
use crate::fmt::{edge_running, fmt_dur};
#[allow(unused_imports)]
use crate::fmt::{building, dur_text};
use crate::json::Json;
#[allow(unused_imports)]
use crate::json::{jvs, JV};
#[allow(unused_imports)]
use crate::loads::opt_jv;
use crate::num::Num;
use crate::outside::pretty_json;
#[allow(unused_imports)]
use crate::outside::pretty_text;
use crate::render::{each_line, each_raw_line, flatten, legend_lines, micros_text, raw_texts, texts_of};
#[allow(unused_imports)]
use crate::render::{as_they_are, flat, in_style, legend, raw_listed, six_decimals, texts_at};
use crate::style::{bold, fg, fg_bold, fg_italic, plain, raw, styled, Color, Line, Style, Text};
#[allow(unused_imports)]
use crate::style::{raw_line, styled_line, LineV};
use crate::text::{decimal, decimal_signed, join, own, pad_left, pad_right, take_chars};
#[allow(unused_imports)]
use crate::text::{dec, first, joined, padl, padr, sdec, strs};

verus! {

/// Upright bars, each with a space behind it.
pub open spec fn bars(n: int) -> Seq<char>
    decreases n,
{
    if n <= 0 { Seq::empty() } else { bars(n - 1) + "│ "@ }
}

/// The indent of a pipeline below the one that started it.
pub open spec fn branch(depth: int) -> Seq<char> {
    if depth <= 0 { Seq::empty() } else { bars(depth - 1) + "└ "@ }
}

fn branch_text(depth: i64) -> (r: String)
    ensures
        r@ == branch(depth as int),
{
    let mut s: String = String::new();
    assert(s@ =~= bars(0));
    if depth <= 0 {
        assert(s@ =~= branch(depth as int));
        return s;
    }
    let mut i: i64 = 0;
    while i < depth - 1
        invariant
            0 <= i <= depth - 1,
            s@ == bars(i as int),
        decreases depth - i,
    {
        s = s.concat("│ ");
        i += 1;
    }
    s.concat("└ ")
}

/// A number with two columns at least, to the left.
pub open spec fn seq_label(n: int) -> Seq<char> {
    "p"@ + padr(sdec(n), 2) + "  "@
}

/// A pipeline that is done and failed.
pub open spec fn pipe_failed(r: JV) -> bool {
    r.num_at("done_ts"@).above_zero() && r.i64_or("exit_code"@, -1) != 0
}

/// A pipeline of which it is known when it began and when it ended.
pub open spec fn pipe_timed(r: JV) -> bool {
    r.num_at("done_ts"@).above_zero() && r.num_at("spawn_ts"@).above_zero()
}

/// How long a pipeline took.
pub open spec fn pipe_dur(r: JV) -> Seq<char> {
    if pipe_timed(r) { dur_text(r.num_at("done_ts"@).minus(r.num_at("spawn_ts"@))) } else { "• run"@ }
}

pub open spec fn pipe_dur_style(r: JV) -> Style {
    if !pipe_timed(r) {
        fg_bold(Color::Yellow)
    } else if pipe_failed(r) {
        fg_bold(Color::Red)
    } else {
        fg(Color::DarkGray)
    }
}

/// A pipeline in the list.
pub open spec fn pipe_line(r: JV) -> LineV {
    let nested = r.flag("nested"@);
    let depth = r.i64_or("depth"@, 0);
    let n = r.items("processes"@).len() as int;
    let a = LineV::new().sp(padl(sdec(r.i64_or("id"@, 0)), 4) + "  "@, fg(Color::DarkGray)).sp(
        (if nested { "N"@ } else { "T"@ }) + "  "@,
        fg(if nested { Color::Magenta } else { Color::Cyan }),
    ).sp(padl(pipe_dur(r), 7) + "  "@, pipe_dur_style(r)).sp(seq_label(r.i64_or("pipeline"@, 0)), fg(Color::DarkGray));
    let b = if branch(depth).len() > 0 { a.sp(branch(depth), fg(Color::DarkGray)) } else { a };
    let c = b.sp(r.str_or("cmd"@, ""@), if pipe_failed(r) { fg(Color::Red) } else { plain() });
    if n > 0 {
        c.sp("  ·  "@ + dec(n) + " proc"@ + (if n == 1 { ""@ } else { "s"@ }), fg(Color::DarkGray))
    } else {
        c
    }
}

fn dur_of_pipe(r: &Json) -> (s: String)
    ensures
        s@ == pipe_dur(r@),
{
    let done: Num = r.num_at("done_ts");
    let spawn: Num = r.num_at("spawn_ts");
    if done.above_zero() && spawn.above_zero() {
        fmt_dur(&done.minus(&spawn))
    } else {
        own("• run")
    }
}

fn style_of_pipe_dur(r: &Json) -> (s: Style)
    ensures
        s == pipe_dur_style(r@),
{
    let done: Num = r.num_at("done_ts");
    if !(done.above_zero() && r.num_at("spawn_ts").above_zero()) {
        fg_bold(Color::Yellow)
    } else if done.above_zero() && r.i64_or("exit_code", -1) != 0 {
        fg_bold(Color::Red)
    } else {
        fg(Color::DarkGray)
    }
}

fn count_at(r: &Json, k: &str) -> (n: usize)
    ensures
        n == r@.items(k@).len(),
{
    match r.get_arr(k) {
        Some(v) => {
            assert(jvs(v@).len() == v@.len());
            v.len()
        },
        None => 0,
    }
}

fn pipe_row(r: &Json) -> (l: Line)
    ensures
        l@ == pipe_line(r@),
{
    let nested: bool = r.flag("nested");
    let failed: bool = r.num_at("done_ts").above_zero() && r.i64_or("exit_code", -1) != 0;
    let a: Line = Line::new().add(
        pad_left(decimal_signed(r.i64_or("id", 0)).as_str(), 4).concat("  "),
        fg(Color::DarkGray),
    ).add(
        own(if nested { "N" } else { "T" }).concat("  "),
        fg(if nested { Color::Magenta } else { Color::Cyan }),
    ).add(pad_left(dur_of_pipe(r).as_str(), 7).concat("  "), style_of_pipe_dur(r)).add(
        own("p").concat(pad_right(decimal_signed(r.i64_or("pipeline", 0)).as_str(), 2).as_str()).concat("  "),
        fg(Color::DarkGray),
    );
    let indent: String = branch_text(r.i64_or("depth", 0));
    let b: Line = if indent.as_str().unicode_len() > 0 { a.add(indent, fg(Color::DarkGray)) } else { a };
    let c: Line = b.sp(r.str_or("cmd", ""), if failed { fg(Color::Red) } else { plain() });
    let n: usize = count_at(r, "processes");
    if n > 0 {
        c.add(
            own("  ·  ").concat(decimal(n as u64).as_str()).concat(" proc").concat(if n == 1 { "" } else { "s" }),
            fg(Color::DarkGray),
        )
    } else {
        c
    }
}

/// The legend of the pipelines.
pub open spec fn pipes_legend() -> Seq<char> {
    "Flags: T - top-level, N - nested (spawned inside another pipeline); red time - non-zero exit, yellow 'run' - still running"@
}

impl App {
    /// The rows of the pipelines.
    pub open spec fn pipe_rows(self) -> Seq<LineV> {
        let rows = jvs(self.lists.pipelines.rows@);
        Seq::new(
            rows.len(),
            |i: int| if i == self.lists.pipelines.sel { pipe_line(rows[i]).reverse() } else { pipe_line(rows[i]) },
        )
    }

    /// The list of the pipelines.
    pub open spec fn pipelines_pane(self, width: int) -> Seq<LineV> {
        if self.lists.pipelines.rows@.len() == 0 {
            seq![
                styled_line(
                    "no pipelines yet — run something through brush (-b) to populate"@,
                    fg_italic(Color::DarkGray),
                ),
            ]
        } else {
            legend(pipes_legend(), width) + self.pipe_rows()
        }
    }
}

/// The list of the pipelines.
pub fn pipelines_lines(app: &App, width: u16) -> (r: Text)
    ensures
        r@ == app.pipelines_pane(width as int),
{
    let rows: &Vec<Json> = &app.lists.pipelines.rows;
    if rows.len() == 0 {
        let t: Text = Text::new().ln(
            styled("no pipelines yet — run something through brush (-b) to populate", fg_italic(Color::DarkGray)),
        );
        assert(t@ =~= app.pipelines_pane(width as int));
        return t;
    }
    let mut out: Text = legend_lines(
        "Flags: T - top-level, N - nested (spawned inside another pipeline); red time - non-zero exit, yellow 'run' - still running",
        width,
    );
    let ghost h = out@;
    let ghost all = app.pipe_rows();
    assert(h + all.take(0) =~= h);
    let mut i: usize = 0;
    while i < rows.len()
        invariant
            i <= rows@.len(),
            rows == &app.lists.pipelines.rows,
            all == app.pipe_rows(),
            out@ == h + all.take(i as int),
        decreases rows@.len() - i,
    {
        assert(jvs(rows@)[i as int] == rows@[i as int]@);
        let l: Line = pipe_row(&rows[i]);
        out = out.ln(if i == app.lists.pipelines.sel { l.reverse() } else { l });
        i += 1;
        assert(out@ =~= h + all.take(i as int));
    }
    assert(all.take(all.len() as int) =~= all);
    out
}

/// The whole numbers of a list, written.
pub open spec fn numbers_in(v: Seq<JV>) -> Seq<Seq<char>>
    decreases v.len(),
{
    if v.len() == 0 {
        Seq::empty()
    } else {
        match v.last().i64() {
            Some(n) => numbers_in(v.drop_last()).push(sdec(n)),
            None => numbers_in(v.drop_last()),
        }
    }
}

fn numbers_of(r: &Json, k: &str) -> (out: Vec<String>)
    ensures
        strs(out@) == numbers_in(r@.items(k@)),
{
    let mut out: Vec<String> = Vec::new();
    match r.get_arr(k) {
        None => {
            assert(strs(out@) =~= numbers_in(r@.items(k@)));
        },
        Some(v) => {
            let ghost all = jvs(v@);
            let mut i: usize = 0;
            assert(strs(out@) =~= numbers_in(all.take(0)));
            while i < v.len()
                invariant
                    i <= v@.len(),
                    all == jvs(v@),
                    strs(out@) == numbers_in(all.take(i as int)),
                decreases v@.len() - i,
            {
                let ghost t = all.take(i + 1);
                assert(t.drop_last() =~= all.take(i as int));
                assert(t.last() == v@[i as int]@);
                match v[i].as_i64() {
                    Some(n) => {
                        let ghost o = strs(out@);
                        out.push(decimal_signed(n));
                        assert(strs(out@) =~= o.push(sdec(n as int)));
                    },
                    None => {},
                }
                i += 1;
            }
            assert(all.take(all.len() as int) =~= all);
        },
    }
    out
}

/// A label and a value.
pub open spec fn fact(label: Seq<char>, value: Seq<char>, st: Style) -> LineV {
    LineV::new().sp(label, fg(Color::DarkGray)).sp(value, st)
}

fn fact_line(label: &str, value: &str, st: Style) -> (r: Line)
    ensures
        r@ == fact(label@, value@, st),
{
    Line::new().sp(label, fg(Color::DarkGray)).sp(value, st)
}

/// When a pipeline ran and how it ended.
pub open spec fn pipe_times(r: JV) -> Seq<LineV> {
    let done = r.num_at("done_ts"@);
    let code = r.i64_or("exit_code"@, -1);
    let spawned = match r.get_num("spawn_ts"@) {
        Some(t) => seq![fact("spawn_ts  "@, six_decimals(t), plain())],
        None => Seq::empty(),
    };
    let from = match r.get_num("spawn_ts"@) {
        Some(t) => t,
        None => done,
    };
    spawned + (if done.above_zero() {
        seq![
            fact("wall      "@, dur_text(done.minus(from)), bold()),
            fact("exit      "@, sdec(code), if code == 0 { bold() } else { fg_bold(Color::Red) }),
        ]
    } else {
        seq![fact("state     "@, "running (not yet finished)"@, fg_bold(Color::Yellow))]
    })
}

fn times_of_pipe(r: &Json) -> (t: Text)
    ensures
        t@ == pipe_times(r@),
{
    let done: Num = r.num_at("done_ts");
    let code: i64 = r.i64_or("exit_code", -1);
    let spawn: Option<Num> = r.get_num("spawn_ts");
    let mut t: Text = Text::new();
    let mut from: Num = done;
    match spawn {
        Some(s) => {
            t = t.ln(fact_line("spawn_ts  ", micros_text(&s).as_str(), plain()));
            from = s;
        },
        None => {},
    }
    if done.above_zero() {
        t = t.ln(fact_line("wall      ", fmt_dur(&done.minus(&from)).as_str(), bold())).ln(
            fact_line(
                "exit      ",
                decimal_signed(code).as_str(),
                if code == 0 {
                    bold()
                } else {
                    fg_bold(Color::Red)
                },
            ),
        );
    } else {
        t = t.ln(fact_line("state     ", "running (not yet finished)", fg_bold(Color::Yellow)));
    }
    assert(t@ =~= pipe_times(r@));
    t
}

/// What a pipeline is.
pub open spec fn pipe_facts(r: JV) -> Seq<LineV> {
    let procs = numbers_in(r.items("processes"@));
    seq![
        fact("id        "@, sdec(r.i64_or("id"@, 0)), bold()),
        fact(
            "origin    "@,
            if r.flag("nested"@) { "nested  (sh -c shim)"@ } else { "top-level brush body"@ },
            bold(),
        ),
        fact("seq       "@, "p"@ + sdec(r.i64_or("pipeline"@, 0)), bold()),
        fact("ts        "@, six_decimals(r.num_at("ts"@)), plain()),
    ] + pipe_times(r) + seq![
        fact("cmd       "@, r.str_or("cmd"@, ""@), bold()),
        if procs.len() > 0 {
            fact("processes "@, joined(procs, ", "@), plain())
        } else {
            fact("processes "@, "(none linked — brush ran this in-process)"@, fg_italic(Color::DarkGray))
        },
    ]
}

fn facts_of_pipe(r: &Json) -> (t: Text)
    ensures
        t@ == pipe_facts(r@),
{
    let procs: Vec<String> = numbers_of(r, "processes");
    assert(strs(procs@).len() == procs@.len());
    let p: String = own("p").concat(decimal_signed(r.i64_or("pipeline", 0)).as_str());
    let t: Text = Text::new().ln(fact_line("id        ", decimal_signed(r.i64_or("id", 0)).as_str(), bold())).ln(
        fact_line(
            "origin    ",
            if r.flag("nested") {
                "nested  (sh -c shim)"
            } else {
                "top-level brush body"
            },
            bold(),
        ),
    ).ln(fact_line("seq       ", p.as_str(), bold())).ln(
        fact_line("ts        ", micros_text(&r.num_at("ts")).as_str(), plain()),
    ).and(times_of_pipe(r)).ln(fact_line("cmd       ", r.str_or("cmd", ""), bold())).ln(
        if procs.len() > 0 {
            fact_line("processes ", join(&procs, ", ").as_str(), plain())
        } else {
            fact_line("processes ", "(none linked — brush ran this in-process)", fg_italic(Color::DarkGray))
        },
    );
    assert(t@ =~= pipe_facts(r@));
    t
}

/// Another pipeline beside the one at the cursor: its command, and its status where it failed.
pub open spec fn neighbour(sign: Seq<char>, v: JV) -> LineV {
    let code = v.i64_or("exit_code"@, -1);
    let l = LineV::new().sp(sign, fg(Color::Cyan)).raw(flat(v.str_or("cmd"@, ""@), 100));
    if code > 0 { l.sp("  exit "@ + sdec(code), fg(Color::Red)) } else { l.raw(""@) }
}

fn neighbour_line(sign: &str, v: &Json) -> (r: Line)
    ensures
        r@ == neighbour(sign@, v@),
{
    let code: i64 = v.i64_or("exit_code", -1);
    let l: Line = Line::new().sp(sign, fg(Color::Cyan)).raw(flatten(v.str_or("cmd", ""), 100).as_str());
    if code > 0 {
        l.add(own("  exit ").concat(decimal_signed(code).as_str()), fg(Color::Red))
    } else {
        l.raw("")
    }
}

/// The pipelines that one started; those without a command are left out.
pub open spec fn children(v: Seq<JV>) -> Seq<LineV>
    decreases v.len(),
{
    if v.len() == 0 {
        Seq::empty()
    } else if v.last().get_str("cmd"@) is Some {
        children(v.drop_last()).push(neighbour("↳ "@, v.last()))
    } else {
        children(v.drop_last())
    }
}

fn add_children(out: Text, ctx: &Json) -> (r: Text)
    ensures
        r@ == out@ + children(ctx@.items("children"@)),
{
    let ghost o = out@;
    let mut t: Text = out;
    match ctx.get_arr("children") {
        None => {
            assert(t@ =~= o + children(ctx@.items("children"@)));
        },
        Some(v) => {
            let ghost all = jvs(v@);
            let mut i: usize = 0;
            assert(o + children(all.take(0)) =~= o);
            while i < v.len()
                invariant
                    i <= v@.len(),
                    all == jvs(v@),
                    t@ == o + children(all.take(i as int)),
                decreases v@.len() - i,
            {
                let ghost s = all.take(i + 1);
                assert(s.drop_last() =~= all.take(i as int));
                assert(s.last() == v@[i as int]@);
                let ghost c = children(all.take(i as int));
                if v[i].get_str("cmd").is_some() {
                    t = t.ln(neighbour_line("↳ ", &v[i]));
                    assert(t@ =~= o + c.push(neighbour("↳ "@, v@[i as int]@)));
                }
                i += 1;
            }
            assert(all.take(all.len() as int) =~= all);
        },
    }
    t
}

/// What started a pipeline, what it is a recipe of, and what it started.
pub open spec fn causes(ctx: JV) -> Seq<LineV> {
    let edge = ctx.str_or("edge_out"@, ""@);
    seq![raw_line(""@), styled_line("── started by / starts ──"@, fg(Color::DarkGray))] + seq![
        match ctx.get("parent"@) {
            Some(p) => if p.get_str("cmd"@) is Some {
                neighbour("↑ "@, p)
            } else {
                styled_line("↑ (top of its shell — nothing started this)"@, fg(Color::DarkGray))
            },
            None => styled_line("↑ (top of its shell — nothing started this)"@, fg(Color::DarkGray)),
        },
    ] + (if edge.len() > 0 {
        seq![
            LineV::new().sp("⚒ "@, fg(Color::Green)).sp("recipe of build edge  "@, fg(Color::DarkGray)).sp(edge, bold()),
        ]
    } else {
        Seq::empty()
    }) + children(ctx.items("children"@))
}

fn causes_of(ctx: &Json) -> (r: Text)
    ensures
        r@ == causes(ctx@),
{
    let parent: Option<Line> = match ctx.get("parent") {
        Some(p) => if p.get_str("cmd").is_some() {
            Some(neighbour_line("↑ ", p))
        } else {
            None
        },
        None => None,
    };
    let up: Line = match parent {
        Some(l) => l,
        None => styled("↑ (top of its shell — nothing started this)", fg(Color::DarkGray)),
    };
    let mut t: Text = Text::new().ln(raw("")).ln(styled("── started by / starts ──", fg(Color::DarkGray))).ln(up);
    let edge: &str = ctx.str_or("edge_out", "");
    if edge.unicode_len() > 0 {
        t = t.ln(
            Line::new().sp("⚒ ", fg(Color::Green)).sp("recipe of build edge  ", fg(Color::DarkGray)).sp(edge, bold()),
        );
    }
    let ghost before = t@;
    let r: Text = add_children(t, ctx);
    assert(r@ =~= causes(ctx@));
    r
}

/// The record of a pipeline as it was parsed.
pub open spec fn parsed(r: JV) -> Seq<LineV> {
    seq![raw_line(""@), styled_line("── parsed structure ──"@, fg(Color::DarkGray))] + as_they_are(
        pretty_text(
            match r.get("record"@) {
                Some(v) => v,
                None => JV::Null,
            },
        ),
    )
}

fn parsed_of(r: &Json) -> (t: Text)
    ensures
        t@ == parsed(r@),
{
    let p: String = match r.get("record") {
        Some(v) => pretty_json(v),
        None => pretty_json(&Json::Null),
    };
    let t: Text = Text::new().ln(raw("")).ln(styled("── parsed structure ──", fg(Color::DarkGray))).and(
        each_raw_line(p.as_str()),
    );
    assert(t@ =~= parsed(r@));
    t
}

impl App {
    /// What is known of the pipeline at the cursor, with what the engine told of its neighbours.
    pub open spec fn pipeline_detail_pane(self, ctx: Option<JV>) -> Seq<LineV> {
        let i = self.lists.pipelines.sel as int;
        if i >= self.lists.pipelines.rows@.len() {
            seq![styled_line("(select a pipeline)"@, fg(Color::DarkGray))]
        } else {
            let r = self.lists.pipelines.rows@[i]@;
            pipe_facts(r) + (if self.sid() is Some && ctx is Some { causes(ctx->0) } else { Seq::empty() }) + parsed(r)
        }
    }
}

/// What is known of the pipeline at the cursor, with what the engine told of its neighbours.
pub fn pipeline_detail_lines(app: &App, ctx: &Option<Json>) -> (r: Text)
    ensures
        r@ == app.pipeline_detail_pane(opt_jv(*ctx)),
{
    let i: usize = app.lists.pipelines.sel;
    if i >= app.lists.pipelines.rows.len() {
        let t: Text = Text::new().ln(styled("(select a pipeline)", fg(Color::DarkGray)));
        assert(t@ =~= app.pipeline_detail_pane(opt_jv(*ctx)));
        return t;
    }
    let row: &Json = &app.lists.pipelines.rows[i];
    let mut t: Text = facts_of_pipe(row);
    let ghost f = t@;
    assert(f + Seq::<LineV>::empty() =~= f);
    match ctx {
        Some(c) => {
            if app.cur_sid().is_some() {
                t = t.and(causes_of(c));
            }
        },
        None => {},
    }
    t.and(parsed_of(row))
}

/// The sign and the style of a target.
pub open spec fn edge_sign(r: JV) -> (Seq<char>, Style) {
    if building(r) {
        ("•"@, fg_bold(Color::Yellow))
    } else if r.str_or("cmd"@, ""@).len() == 0 {
        ("P"@, fg(Color::DarkGray))
    } else {
        ("R"@, fg(Color::Green))
    }
}

/// How long a recipe took.
pub open spec fn edge_dur(r: JV) -> (Seq<char>, Style) {
    let started = r.num_at("started_ts"@);
    let ended = r.num_at("ended_ts"@);
    if building(r) {
        ("• run"@, fg_bold(Color::Yellow))
    } else if started.above_zero() && ended.above_zero() {
        (
            dur_text(ended.minus(started)),
            if r.i64_or("exit_code"@, 0) != 0 { fg_bold(Color::Red) } else { fg(Color::DarkGray) },
        )
    } else {
        (""@, fg(Color::DarkGray))
    }
}

/// A target in the list.
pub open spec fn edge_line(r: JV) -> LineV {
    let outs = texts_at(r, "outs"@);
    let cmd = r.str_or("cmd"@, ""@);
    let a = LineV::new().sp(edge_sign(r).0 + "  "@, edge_sign(r).1).sp(padl(edge_dur(r).0, 7) + "  "@, edge_dur(r).1).sp(
        if outs.len() > 0 { outs[0] } else { "(unnamed)"@ },
        bold(),
    ).sp(if outs.len() > 1 { " (+"@ + dec(outs.len() - 1) + ")"@ } else { ""@ }, fg(Color::DarkGray));
    if cmd.len() > 0 { a.sp("  ←  "@, fg(Color::DarkGray)).raw(first(cmd, 60)) } else { a }
}

fn sign_of_edge(r: &Json) -> (s: (&'static str, Style))
    ensures
        (s.0@, s.1) == edge_sign(r@),
{
    if edge_running(r) {
        ("•", fg_bold(Color::Yellow))
    } else if r.str_or("cmd", "").unicode_len() == 0 {
        ("P", fg(Color::DarkGray))
    } else {
        ("R", fg(Color::Green))
    }
}

fn dur_of_edge(r: &Json) -> (s: (String, Style))
    ensures
        (s.0@, s.1) == edge_dur(r@),
{
    let started: Num = r.num_at("started_ts");
    let ended: Num = r.num_at("ended_ts");
    if edge_running(r) {
        (own("• run"), fg_bold(Color::Yellow))
    } else if started.above_zero() && ended.above_zero() {
        (
            fmt_dur(&ended.minus(&started)),
            if r.i64_or("exit_code", 0) != 0 {
                fg_bold(Color::Red)
            } else {
                fg(Color::DarkGray)
            },
        )
    } else {
        (own(""), fg(Color::DarkGray))
    }
}

fn edge_row(r: &Json) -> (l: Line)
    ensures
        l@ == edge_line(r@),
{
    let outs: Vec<String> = texts_of(r, "outs");
    assert(strs(outs@).len() == outs@.len());
    assert(outs@.len() > 0 ==> strs(outs@)[0] == outs@[0]@);
    let cmd: &str = r.str_or("cmd", "");
    let (sign, sign_style): (&str, Style) = sign_of_edge(r);
    let (dur, dur_style): (String, Style) = dur_of_edge(r);
    let extra: String = if outs.len() > 1 {
        own(" (+").concat(decimal((outs.len() - 1) as u64).as_str()).concat(")")
    } else {
        own("")
    };
    let a: Line = Line::new().add(own(sign).concat("  "), sign_style).add(
        pad_left(dur.as_str(), 7).concat("  "),
        dur_style,
    ).sp(
        if outs.len() > 0 {
            outs[0].as_str()
        } else {
            "(unnamed)"
        },
        bold(),
    ).add(extra, fg(Color::DarkGray));
    if cmd.unicode_len() > 0 {
        a.sp("  ←  ", fg(Color::DarkGray)).raw(take_chars(cmd, 60).as_str())
    } else {
        a
    }
}

/// The legend of the targets.
pub open spec fn edges_legend() -> Seq<char> {
    "Flags: R - recipe ran, P - phony/no recipe, • - building now; red time - failed recipe"@
}

impl App {
    /// The rows of the targets.
    pub open spec fn edge_rows(self) -> Seq<LineV> {
        let rows = jvs(self.lists.edges.rows@);
        Seq::new(
            rows.len(),
            |i: int| if i == self.lists.edges.sel { edge_line(rows[i]).reverse() } else { edge_line(rows[i]) },
        )
    }

    /// The list of the targets.
    pub open spec fn edges_pane(self, width: int) -> Seq<LineV> {
        if self.lists.edges.rows@.len() == 0 {
            seq![
                styled_line(
                    "no build edges yet — run `ninja` or `make` inside a -b box"@,
                    fg_italic(Color::DarkGray),
                ),
            ]
        } else {
            legend(edges_legend(), width) + self.edge_rows()
        }
    }
}

/// The list of the targets.
pub fn build_edges_lines(app: &App, width: u16) -> (r: Text)
    ensures
        r@ == app.edges_pane(width as int),
{
    let rows: &Vec<Json> = &app.lists.edges.rows;
    if rows.len() == 0 {
        let t: Text = Text::new().ln(
            styled("no build edges yet — run `ninja` or `make` inside a -b box", fg_italic(Color::DarkGray)),
        );
        assert(t@ =~= app.edges_pane(width as int));
        return t;
    }
    let mut out: Text = legend_lines(
        "Flags: R - recipe ran, P - phony/no recipe, • - building now; red time - failed recipe",
        width,
    );
    let ghost h = out@;
    let ghost all = app.edge_rows();
    assert(h + all.take(0) =~= h);
    let mut i: usize = 0;
    while i < rows.len()
        invariant
            i <= rows@.len(),
            rows == &app.lists.edges.rows,
            all == app.edge_rows(),
            out@ == h + all.take(i as int),
        decreases rows@.len() - i,
    {
        assert(jvs(rows@)[i as int] == rows@[i as int]@);
        let l: Line = edge_row(&rows[i]);
        out = out.ln(if i == app.lists.edges.sel { l.reverse() } else { l });
        i += 1;
        assert(out@ =~= h + all.take(i as int));
    }
    assert(all.take(all.len() as int) =~= all);
    out
}

/// Whether a target was built, and how that ended.
pub open spec fn edge_state(r: JV) -> (Seq<char>, Style) {
    let started = r.num_at("started_ts"@);
    let ended = r.num_at("ended_ts"@);
    let code = r.i64_or("exit_code"@, 0);
    if started.above_zero() && ended.is_zero() {
        ("building…"@, fg_bold(Color::Yellow))
    } else if started.above_zero() && ended.above_zero() {
        (
            "done in "@ + dur_text(ended.minus(started)) + " (exit "@ + sdec(code) + ")"@,
            if code != 0 { fg_bold(Color::Red) } else { fg(Color::Green) },
        )
    } else {
        ("not run (up-to-date / phony)"@, fg(Color::DarkGray))
    }
}

fn state_of_edge(r: &Json) -> (s: (String, Style))
    ensures
        (s.0@, s.1) == edge_state(r@),
{
    let started: Num = r.num_at("started_ts");
    let ended: Num = r.num_at("ended_ts");
    let code: i64 = r.i64_or("exit_code", 0);
    if started.above_zero() && ended.is_zero() {
        (own("building…"), fg_bold(Color::Yellow))
    } else if started.above_zero() && ended.above_zero() {
        (
            own("done in ").concat(fmt_dur(&ended.minus(&started)).as_str()).concat(" (exit ").concat(
                decimal_signed(code).as_str(),
            ).concat(")"),
            if code != 0 {
                fg_bold(Color::Red)
            } else {
                fg(Color::Green)
            },
        )
    } else {
        (own("not run (up-to-date / phony)"), fg(Color::DarkGray))
    }
}

/// A list of files, or what is shown in its place.
pub open spec fn files(v: Seq<Seq<char>>, none: Seq<char>) -> Seq<LineV> {
    if v.len() == 0 { seq![styled_line(none, fg(Color::DarkGray))] } else { raw_listed(v, "  "@) }
}

fn add_files(out: Text, v: &Vec<String>, none: &str) -> (r: Text)
    ensures
        r@ == out@ + files(strs(v@), none@),
{
    let ghost o = out@;
    assert(strs(v@).len() == v@.len());
    if v.len() == 0 {
        let t: Text = out.ln(styled(none, fg(Color::DarkGray)));
        assert(t@ =~= o + files(strs(v@), none@));
        t
    } else {
        out.and(raw_texts(v, "  "))
    }
}

/// The recipe of a target.
pub open spec fn recipe(cmd: Seq<char>) -> Seq<LineV> {
    if cmd.len() == 0 {
        seq![
            styled_line(
                "phony — no recipe; this edge only declares dependencies"@,
                fg_italic(Color::DarkGray),
            ),
        ]
    } else {
        seq![styled_line("recipe"@, bold()), raw_line(cmd)]
    }
}

fn add_recipe(out: Text, cmd: &str) -> (r: Text)
    ensures
        r@ == out@ + recipe(cmd@),
{
    let ghost o = out@;
    let t: Text = if cmd.unicode_len() == 0 {
        out.ln(
            styled("phony — no recipe; this edge only declares dependencies", fg_italic(Color::DarkGray)),
        )
    } else {
        out.ln(styled("recipe", bold())).ln(raw(cmd))
    };
    assert(t@ =~= o + recipe(cmd@));
    t
}

/// What a recipe wrote.
pub open spec fn excerpt(r: JV) -> Seq<LineV> {
    let text = r.str_or("output_excerpt"@, ""@);
    if text.len() == 0 {
        Seq::empty()
    } else {
        seq![raw_line(""@), styled_line("output (tail ~1KB — full stream in Outputs)"@, bold())] + in_style(
            text,
            if r.i64_or("exit_code"@, 0) != 0 { fg(Color::Red) } else { plain() },
        )
    }
}

fn add_excerpt(out: Text, r: &Json) -> (t: Text)
    ensures
        t@ == out@ + excerpt(r@),
{
    let ghost o = out@;
    let text: &str = r.str_or("output_excerpt", "");
    if text.unicode_len() == 0 {
        assert(o + Seq::<LineV>::empty() =~= o);
        return out;
    }
    let st: Style = if r.i64_or("exit_code", 0) != 0 { fg(Color::Red) } else { plain() };
    let t: Text = out.ln(raw("")).ln(styled("output (tail ~1KB — full stream in Outputs)", bold())).and(
        each_line(text, st),
    );
    assert(t@ =~= o + excerpt(r@));
    t
}

/// What stands first of what is known of a target.
pub open spec fn edge_head(r: JV) -> Seq<LineV> {
    seq![
        fact("id        "@, sdec(r.i64_or("id"@, 0)), plain()),
        fact("ts        "@, six_decimals(r.num_at("ts"@)), plain()),
        fact("state     "@, edge_state(r).0, edge_state(r).1),
        raw_line(""@),
        styled_line("outputs"@, fg_bold(Color::Green)),
    ]
}

fn head_of_edge(r: &Json) -> (t: Text)
    ensures
        t@ == edge_head(r@),
{
    let (state, style): (String, Style) = state_of_edge(r);
    let t: Text = Text::new().ln(fact_line("id        ", decimal_signed(r.i64_or("id", 0)).as_str(), plain())).ln(
        fact_line("ts        ", micros_text(&r.num_at("ts")).as_str(), plain()),
    ).ln(fact_line("state     ", state.as_str(), style)).ln(raw("")).ln(styled("outputs", fg_bold(Color::Green)));
    assert(t@ =~= edge_head(r@));
    t
}

/// What is known of a target.
pub open spec fn edge_detail(r: JV) -> Seq<LineV> {
    (edge_head(r) + files(texts_at(r, "outs"@), "  (none)"@)).push(raw_line(""@)).push(
        styled_line("inputs"@, fg_bold(Color::Cyan)),
    ) + files(texts_at(r, "ins"@), "  (none — leaf or phony)"@) + seq![raw_line(""@)] + recipe(r.str_or("cmd"@, ""@))
        + excerpt(r)
}

impl App {
    /// What is known of the target at the cursor.
    pub open spec fn edge_detail_pane(self) -> Seq<LineV> {
        let i = self.lists.edges.sel as int;
        if i >= self.lists.edges.rows@.len() {
            seq![styled_line("(select an edge)"@, fg(Color::DarkGray))]
        } else {
            edge_detail(self.lists.edges.rows@[i]@)
        }
    }
}

/// What is known of the target at the cursor: what it makes, from what, how, and how that went.
pub fn build_edge_detail_lines(app: &App) -> (r: Text)
    ensures
        r@ == app.edge_detail_pane(),
{
    let i: usize = app.lists.edges.sel;
    if i >= app.lists.edges.rows.len() {
        let t: Text = Text::new().ln(styled("(select an edge)", fg(Color::DarkGray)));
        assert(t@ =~= app.edge_detail_pane());
        return t;
    }
    let row: &Json = &app.lists.edges.rows[i];
    let t: Text = add_files(head_of_edge(row), &texts_of(row, "outs"), "  (none)");
    let t: Text = t.ln(raw("")).ln(styled("inputs", fg_bold(Color::Cyan)));
    let t: Text = add_files(t, &texts_of(row, "ins"), "  (none — leaf or phony)");
    let ghost a = t@;
    let t: Text = t.ln(raw(""));
    assert(t@ =~= a + seq![raw_line(""@)]);
    let t: Text = add_recipe(t, row.str_or("cmd", ""));
    add_excerpt(t, row)
}

} // verus!
