//! What the programs of a box wrote: the list of the writes, and the transcript around the one at
//! the cursor.

use vstd::prelude::*;

use crate::app::{App, OUTPUT_WINDOW_CAP};
use crate::diff::size_text;
#[allow(unused_imports)]
use crate::diff::signed;
#[allow(unused_imports)]
use crate::fmt::bytes_text;
use crate::fmt::decimal_wide;
use crate::json::Json;
#[allow(unused_imports)]
use crate::json::{jvs, JV};
#[allow(unused_imports)]
use crate::lists::{fit, minus};
use crate::render::{last_part, nothing_line, time_label};
#[allow(unused_imports)]
use crate::render::{after_last, clock, nothing_text};
use crate::style::{bold, cursor, dim, fg, fg_bold, plain, raw, styled, Color, Line, Style, Text};
#[allow(unused_imports)]
use crate::style::{raw_line, styled_line, LineV};
use crate::text::{decimal, decimal_signed, own, pad_left, pad_right, take_chars};
#[allow(unused_imports)]
use crate::text::{dec, first, padl, padr, sdec};

verus! {

/// The process of a write: its program without directories, and its number.
pub open spec fn writer_label(o: JV) -> Seq<char> {
    let base = after_last(o.str_or("exe"@, ""@), '/');
    let tgid = o.i64_or("tgid"@, 0);
    if tgid > 0 { base + "·"@ + sdec(tgid) } else { base }
}

/// A write in the list.
pub open spec fn write_line(o: JV, at_cursor: bool) -> LineV {
    let err = o.i64_or("stream"@, 0) == 1;
    styled_line(
        padr(clock(o.num_at("ts"@)), 8) + " "@ + padr(if err { "err"@ } else { "out"@ }, 6) + " "@ + padr(
            first(writer_label(o), 20),
            20,
        ) + " "@ + padl(sdec(o.i64_or("len"@, 0)), 10),
        if at_cursor { cursor() } else { fg(if err { Color::Red } else { Color::Reset }) },
    )
}

fn write_row(o: &Json, at_cursor: bool) -> (r: Line)
    ensures
        r@ == write_line(o@, at_cursor),
{
    let err: bool = o.i64_or("stream", 0) == 1;
    let base: String = last_part(o.str_or("exe", ""), '/');
    let tgid: i64 = o.i64_or("tgid", 0);
    let who: String = if tgid > 0 { base.concat("·").concat(decimal_signed(tgid).as_str()) } else { base };
    let t: String = pad_right(time_label(&o.num_at("ts")).as_str(), 8).concat(" ").concat(
        pad_right(if err { "err" } else { "out" }, 6).as_str(),
    ).concat(" ").concat(pad_right(take_chars(who.as_str(), 20).as_str(), 20).as_str()).concat(" ").concat(
        pad_left(decimal_signed(o.i64_or("len", 0)).as_str(), 10).as_str(),
    );
    styled(t.as_str(), if at_cursor { cursor() } else { fg(if err { Color::Red } else { Color::Reset }) })
}

impl App {
    /// The rows of the writes.
    pub open spec fn write_rows(self) -> Seq<LineV> {
        let rows = jvs(self.lists.outputs.rows@);
        Seq::new(rows.len(), |i: int| write_line(rows[i], i == self.lists.outputs.sel))
    }

    /// The list of the writes.
    pub open spec fn outputs_index_pane(self) -> Seq<LineV> {
        seq![
            styled_line(
                padr("Time"@, 8) + " "@ + padr("Stream"@, 6) + " "@ + padr("Process"@, 20) + " "@ + padl("Bytes"@, 10),
                bold(),
            ),
        ] + (if self.lists.outputs.rows@.len() == 0 {
            seq![
                raw_line(
                    nothing_text(
                        self.lists.outputs.total as int,
                        self.filters.outputs@.is_active(),
                        "(no captured output)"@,
                        "(no outputs match filter)"@,
                    ),
                ),
            ]
        } else {
            self.write_rows()
        })
    }
}

/// The list of the writes.
pub fn outputs_index_lines(app: &App) -> (r: Text)
    ensures
        r@ == app.outputs_index_pane(),
{
    let head: String = pad_right("Time", 8).concat(" ").concat(pad_right("Stream", 6).as_str()).concat(" ").concat(
        pad_right("Process", 20).as_str(),
    ).concat(" ").concat(pad_left("Bytes", 10).as_str());
    let mut out: Text = Text::new().ln(styled(head.as_str(), bold()));
    let ghost h = out@;
    let rows: &Vec<Json> = &app.lists.outputs.rows;
    if rows.len() == 0 {
        out = out.ln(
            nothing_line(
                app.lists.outputs.total,
                app.filters.outputs.active().is_some(),
                "(no captured output)",
                "(no outputs match filter)",
            ),
        );
        assert(out@ =~= app.outputs_index_pane());
        return out;
    }
    let ghost all = app.write_rows();
    assert(h + all.take(0) =~= h);
    let mut i: usize = 0;
    while i < rows.len()
        invariant
            i <= rows@.len(),
            rows == &app.lists.outputs.rows,
            all == app.write_rows(),
            out@ == h + all.take(i as int),
        decreases rows@.len() - i,
    {
        assert(jvs(rows@)[i as int] == rows@[i as int]@);
        out = out.ln(write_row(&rows[i], i == app.lists.outputs.sel));
        i += 1;
        assert(out@ =~= h + all.take(i as int));
    }
    assert(all.take(all.len() as int) =~= all);
    assert(out@ =~= app.outputs_index_pane());
    out
}

/// The bytes that the writes of one stream hold.
pub open spec fn stream_bytes(rows: Seq<JV>, err: bool) -> int
    decreases rows.len(),
{
    if rows.len() == 0 {
        0
    } else {
        stream_bytes(rows.drop_last(), err) + (if (rows.last().i64_or("stream"@, 0) == 1) == err {
            rows.last().i64_or("len"@, 0)
        } else {
            0
        })
    }
}

fn sum_stream(rows: &Vec<Json>, err: bool) -> (r: i128)
    ensures
        r == stream_bytes(jvs(rows@), err),
        r > i128::MIN,
{
    let ghost all = jvs(rows@);
    let n: usize = rows.len();
    let mut sum: i128 = 0;
    let mut i: usize = 0;
    assert(all.take(0).len() == 0);
    while i < n
        invariant
            i <= n == rows@.len(),
            all == jvs(rows@),
            sum == stream_bytes(all.take(i as int), err),
            -(i as int) * 0x8000_0000_0000_0000 <= sum <= (i as int) * 0x8000_0000_0000_0000,
        decreases n - i,
    {
        let ghost t = all.take(i + 1);
        assert(t.drop_last() =~= all.take(i as int));
        assert(t.last() == rows@[i as int]@);
        if (rows[i].i64_or("stream", 0) == 1) == err {
            sum = sum + rows[i].i64_or("len", 0) as i128;
        }
        i += 1;
    }
    assert(all.take(all.len() as int) =~= all);
    sum
}

fn signed_wide(n: i128) -> (r: String)
    requires
        n > i128::MIN,
    ensures
        r@ == sdec(n as int),
{
    if n < 0 {
        proof {
            reveal_strlit("-");
            assert("-"@ =~= seq!['-']);
        }
        own("-").concat(decimal_wide((-n) as u128).as_str())
    } else {
        decimal_wide(n as u128)
    }
}

/// The bytes that a character takes up.
pub open spec fn char_bytes(c: char) -> int {
    if (c as u32) < 0x80 {
        1
    } else if (c as u32) < 0x800 {
        2
    } else if (c as u32) < 0x1_0000 {
        3
    } else {
        4
    }
}

/// The bytes that a text takes up.
pub open spec fn text_bytes(s: Seq<char>) -> int
    decreases s.len(),
{
    if s.len() == 0 {
        0
    } else {
        text_bytes(s.drop_last()) + char_bytes(s.last())
    }
}

fn width_of(c: char) -> (r: u128)
    ensures
        r == char_bytes(c),
        1 <= r <= 4,
{
    let n: u32 = c as u32;
    if n < 0x80 {
        1
    } else if n < 0x800 {
        2
    } else if n < 0x1_0000 {
        3
    } else {
        4
    }
}

proof fn lemma_text_bytes(s: Seq<char>)
    ensures
        0 <= text_bytes(s) <= 4 * s.len(),
    decreases s.len(),
{
    if s.len() > 0 {
        lemma_text_bytes(s.drop_last());
    }
}

fn bytes_of(s: &str) -> (r: usize)
    ensures
        r == fit(text_bytes(s@)),
{
    let n: usize = s.unicode_len();
    let mut sum: u128 = 0;
    let mut i: usize = 0;
    assert(s@.take(0).len() == 0);
    while i < n
        invariant
            i <= n == s@.len(),
            sum == text_bytes(s@.take(i as int)),
            sum <= 4 * (i as int),
        decreases n - i,
    {
        let ghost t = s@.take(i + 1);
        assert(t.drop_last() =~= s@.take(i as int));
        sum = sum + width_of(s.get_char(i));
        i += 1;
    }
    assert(s@.take(n as int) =~= s@);
    if sum <= usize::MAX as u128 {
        sum as usize
    } else {
        usize::MAX
    }
}

/// What lies between two places of a text that begins at the place `at`; a character that a
/// place cuts is left out.
pub open spec fn between(s: Seq<char>, at: int, lo: int, hi: int) -> Seq<char>
    decreases s.len(),
{
    if s.len() == 0 {
        Seq::empty()
    } else {
        let w = char_bytes(s[0]);
        (if lo <= at && at + w <= hi { seq![s[0]] } else { Seq::empty() }) + between(s.drop_first(), at + w, lo, hi)
    }
}

fn cut(s: &str, lo: usize, hi: usize) -> (r: String)
    ensures
        r@ == between(s@, 0, lo as int, hi as int),
{
    let n: usize = s.unicode_len();
    let mut out: String = String::new();
    let mut at: u128 = 0;
    let mut i: usize = 0;
    let ghost all = between(s@, 0, lo as int, hi as int);
    assert(s@.skip(0) =~= s@);
    assert(out@ + all =~= all);
    while i < n
        invariant
            i <= n == s@.len(),
            at <= 4 * (i as int),
            out@ + between(s@.skip(i as int), at as int, lo as int, hi as int) == all,
        decreases n - i,
    {
        let ghost o = out@;
        let ghost t = s@.skip(i as int);
        let c: char = s.get_char(i);
        assert(t[0] == c);
        assert(t.drop_first() =~= s@.skip(i + 1));
        let w: u128 = width_of(c);
        let ghost rest = between(t.drop_first(), at + w, lo as int, hi as int);
        if lo as u128 <= at && at + w <= hi as u128 {
            out.push(c);
            assert(o + (seq![c] + rest) =~= out@ + rest);
        } else {
            assert(o + (Seq::<char>::empty() + rest) =~= out@ + rest);
        }
        at = at + w;
        i += 1;
    }
    assert(s@.skip(n as int).len() == 0);
    assert(out@ =~= all);
    out
}

/// A text cut at its line breaks, behind what is on the line already.
pub open spec fn pieces(s: Seq<char>, cur: Seq<char>) -> Seq<Seq<char>>
    decreases s.len(),
{
    if s.len() == 0 {
        seq![cur]
    } else if s[0] == '\n' {
        seq![cur] + pieces(s.drop_first(), Seq::empty())
    } else {
        pieces(s.drop_first(), cur.push(s[0]))
    }
}

/// The lines of a write: what stands behind a last line break is none where it is empty.
pub open spec fn write_lines(s: Seq<char>) -> Seq<Seq<char>> {
    let p = pieces(s, Seq::empty());
    if p.len() > 1 && p.last().len() == 0 { p.drop_last() } else { p }
}

fn lines_of_write(s: &str) -> (r: Vec<String>)
    ensures
        crate::text::strs(r@) == write_lines(s@),
{
    let n: usize = s.unicode_len();
    let ghost all = pieces(s@, Seq::empty());
    let mut out: Vec<String> = Vec::new();
    let mut cur: String = String::new();
    let mut i: usize = 0;
    assert(s@.skip(0) =~= s@);
    assert(cur@ =~= Seq::<char>::empty());
    assert(crate::text::strs(out@) + all =~= all);
    while i < n
        invariant
            i <= n == s@.len(),
            crate::text::strs(out@) + pieces(s@.skip(i as int), cur@) == all,
        decreases n - i,
    {
        let ghost o = crate::text::strs(out@);
        let ghost t = s@.skip(i as int);
        let ghost was = cur@;
        let c: char = s.get_char(i);
        assert(t[0] == c);
        assert(t.drop_first() =~= s@.skip(i + 1));
        if c == '\n' {
            out.push(cur);
            cur = String::new();
            assert(cur@ =~= Seq::<char>::empty());
            assert(crate::text::strs(out@) =~= o.push(was));
            let ghost rest = pieces(t.drop_first(), Seq::empty());
            assert(o + (seq![was] + rest) =~= crate::text::strs(out@) + rest);
        } else {
            cur.push(c);
        }
        i += 1;
    }
    assert(s@.skip(n as int).len() == 0);
    let ghost o = crate::text::strs(out@);
    let last_empty: bool = cur.as_str().unicode_len() == 0;
    let ghost was = cur@;
    if out.len() > 0 && last_empty {
        assert(all =~= o.push(was));
        assert(all.drop_last() =~= o);
        return out;
    }
    out.push(cur);
    assert(crate::text::strs(out@) =~= o.push(was));
    assert(all =~= o.push(was));
    out
}

/// What a piece of the transcript is.
pub open spec fn seg_v(s: (i64, i64, String)) -> (int, int, Seq<char>) {
    (s.0 as int, s.1 as int, s.2@)
}

/// The pieces of the transcript.
pub open spec fn segs_v(v: Seq<(i64, i64, String)>) -> Seq<(int, int, Seq<char>)> {
    v.map_values(|s: (i64, i64, String)| seg_v(s))
}

/// Where the piece `k` begins: the bytes before it, as far as they can be counted.
pub open spec fn seg_at(segs: Seq<(int, int, Seq<char>)>, k: int) -> usize
    decreases k,
{
    if k <= 0 {
        0
    } else {
        fit(seg_at(segs, k - 1) + fit(text_bytes(segs[k - 1].2)))
    }
}

/// Where the write `sel` begins: the last of the first `k` pieces that is of it; at the start where
/// none is.
pub open spec fn sel_at(segs: Seq<(int, int, Seq<char>)>, sel: Option<int>, k: int) -> usize
    decreases k,
{
    if k <= 0 {
        0
    } else if Some(segs[k - 1].0) == sel {
        seg_at(segs, k - 1)
    } else {
        sel_at(segs, sel, k - 1)
    }
}

/// The part of the transcript that is shown: around a place, as much as may be shown.
pub open spec fn window(total: int, at: int) -> (int, int) {
    if total > OUTPUT_WINDOW_CAP {
        let s = minus(at, OUTPUT_WINDOW_CAP as int / 2);
        let e = if s + OUTPUT_WINDOW_CAP < total { s + OUTPUT_WINDOW_CAP } else { total };
        (e - OUTPUT_WINDOW_CAP, e)
    } else {
        (0, total)
    }
}

/// The style of a line of the transcript.
#[verifier::allow_in_spec]
pub fn transcript_style(err: bool, sel: bool) -> (r: Style)
    returns
        (Style {
            fg: if err { Some(Color::Red) } else { None },
            bg: if sel { Some(Color::Rgb(58, 58, 58)) } else { None },
            bold: sel,
            ..plain()
        }),
{
    Style {
        fg: if err { Some(Color::Red) } else { None },
        bg: if sel { Some(Color::Rgb(58, 58, 58)) } else { None },
        bold: sel,
        ..plain()
    }
}

/// A line of the transcript; those of the write at the cursor are marked.
pub open spec fn transcript_line(l: Seq<char>, err: bool, sel: bool) -> LineV {
    LineV::new().sp(
        if sel { "▌ "@ } else { "  "@ },
        if sel { fg_bold(Color::Yellow) } else { dim() },
    ).sp(l, transcript_style(err, sel))
}

/// The lines of a piece, as far as they are shown.
pub open spec fn seg_lines(seg: (int, int, Seq<char>), at: int, end: int, from: int, to: int, sel: Option<int>) -> Seq<LineV> {
    if end <= from || at >= to {
        Seq::empty()
    } else {
        write_lines(
            between(seg.2, 0, minus(from, at), fit(text_bytes(seg.2)) - minus(end, to)),
        ).map_values(|l: Seq<char>| transcript_line(l, seg.1 == 1, Some(seg.0) == sel))
    }
}

/// The first `k` pieces behind the lines that are there already, and the first line of the write at
/// the cursor, nought where it is not shown.
pub open spec fn transcript(
    head: Seq<LineV>,
    segs: Seq<(int, int, Seq<char>)>,
    k: int,
    from: int,
    to: int,
    sel: Option<int>,
) -> (Seq<LineV>, int)
    decreases k,
{
    if k <= 0 {
        (head, 0)
    } else {
        let p = transcript(head, segs, k - 1, from, to, sel);
        let at = seg_at(segs, k - 1) as int;
        let end = seg_at(segs, k) as int;
        (
            p.0 + seg_lines(segs[k - 1], at, end, from, to, sel),
            if p.1 == 0 && Some(segs[k - 1].0) == sel && !(end <= from || at >= to) { p.0.len() as int } else { p.1 },
        )
    }
}

impl App {
    /// The number of the write at the cursor.
    pub open spec fn sel_output(self) -> Option<int> {
        let i = self.lists.outputs.sel as int;
        if i < self.lists.outputs.rows@.len() { self.lists.outputs.rows@[i]@.get_i64("id"@) } else { None }
    }

    /// How much was written.
    pub open spec fn output_totals(self) -> LineV {
        let rows = jvs(self.lists.outputs.rows@);
        styled_line(
            dec(rows.len() as int) + " write(s) · "@ + sdec(stream_bytes(rows, false)) + " stdout B · "@ + sdec(
                stream_bytes(rows, true),
            ) + " stderr B"@,
            bold(),
        )
    }

    /// The transcript around the write at the cursor, and the first line of that write.
    pub open spec fn outputs_pane(self) -> (Seq<LineV>, int) {
        let segs = segs_v(self.shown.output_segs@);
        let n = segs.len() as int;
        let total = seg_at(segs, n) as int;
        let (from, to) = window(total, sel_at(segs, self.sel_output(), n) as int);
        if n == 0 {
            (seq![self.output_totals(), raw_line("(no captured output)"@)], 0)
        } else {
            let head = seq![self.output_totals()] + (if from > 0 {
                seq![styled_line("  … "@ + bytes_text(signed(from)) + " earlier"@, dim())]
            } else {
                Seq::empty()
            });
            let t = transcript(head, segs, n, from, to, self.sel_output());
            (
                t.0 + (if to < total {
                    seq![styled_line("  … "@ + bytes_text(signed(total - to)) + " more"@, dim())]
                } else {
                    Seq::empty()
                }),
                t.1,
            )
        }
    }
}

fn cut_window(total: usize, at: usize) -> (r: (usize, usize))
    ensures
        (r.0 as int, r.1 as int) == window(total as int, at as int),
        r.0 <= r.1 <= total,
{
    if total > OUTPUT_WINDOW_CAP {
        let s: usize = at.saturating_sub(OUTPUT_WINDOW_CAP / 2);
        let room: usize = total - OUTPUT_WINDOW_CAP;
        let e: usize = if s < room { s + OUTPUT_WINDOW_CAP } else { total };
        (e - OUTPUT_WINDOW_CAP, e)
    } else {
        (0, total)
    }
}

fn add_segment(out: Text, seg: &(i64, i64, String), lo: usize, hi: usize, sel: bool) -> (r: Text)
    ensures
        r@ == out@ + write_lines(between(seg.2@, 0, lo as int, hi as int)).map_values(
            |l: Seq<char>| transcript_line(l, seg.1 == 1, sel),
        ),
{
    let err: bool = seg.1 == 1;
    let ls: Vec<String> = lines_of_write(cut(seg.2.as_str(), lo, hi).as_str());
    let ghost all = write_lines(between(seg.2@, 0, lo as int, hi as int));
    let ghost shown = all.map_values(|l: Seq<char>| transcript_line(l, seg.1 == 1, sel));
    assert(all.len() == ls@.len());
    let ghost o = out@;
    let mut t: Text = out;
    assert(o + shown.take(0) =~= o);
    let mut i: usize = 0;
    while i < ls.len()
        invariant
            i <= ls@.len() == all.len(),
            all == crate::text::strs(ls@),
            err == (seg.1 == 1),
            shown == all.map_values(|l: Seq<char>| transcript_line(l, seg.1 == 1, sel)),
            t@ == o + shown.take(i as int),
        decreases ls@.len() - i,
    {
        assert(all[i as int] == ls@[i as int]@);
        t = t.ln(
            Line::new().sp(
                if sel { "▌ " } else { "  " },
                if sel { fg_bold(Color::Yellow) } else { dim() },
            ).sp(ls[i].as_str(), transcript_style(err, sel)),
        );
        i += 1;
        assert(t@ =~= o + shown.take(i as int));
    }
    assert(shown.take(shown.len() as int) =~= shown);
    t
}

fn places(v: &Vec<(i64, i64, String)>, sel: Option<i64>) -> (r: (usize, usize))
    ensures
        r.0 == seg_at(segs_v(v@), v@.len() as int),
        r.1 == sel_at(
            segs_v(v@),
            match sel {
                Some(n) => Some(n as int),
                None => None,
            },
            v@.len() as int,
        ),
{
    let ghost segs = segs_v(v@);
    let ghost want = match sel {
        Some(n) => Some(n as int),
        None => None,
    };
    let mut pos: usize = 0;
    let mut at: usize = 0;
    let mut i: usize = 0;
    while i < v.len()
        invariant
            i <= v@.len(),
            segs == segs_v(v@),
            want == (match sel {
                Some(n) => Some(n as int),
                None => None,
            }),
            pos == seg_at(segs, i as int),
            at == sel_at(segs, want, i as int),
        decreases v@.len() - i,
    {
        assert(segs[i as int] == seg_v(v@[i as int]));
        let mine: bool = match sel {
            Some(n) => v[i].0 == n,
            None => false,
        };
        if mine {
            at = pos;
        }
        pos = pos.saturating_add(bytes_of(v[i].2.as_str()));
        i += 1;
    }
    (pos, at)
}

/// The transcript around the write at the cursor, and the first line of that write: the list is
/// scrolled so that it is in view.
pub fn outputs_lines(app: &App) -> (r: (Text, usize))
    ensures
        (r.0@, r.1 as int) == app.outputs_pane(),
{
    let rows: &Vec<Json> = &app.lists.outputs.rows;
    assert(jvs(rows@).len() == rows@.len());
    let h: String = decimal(rows.len() as u64).concat(" write(s) · ").concat(
        signed_wide(sum_stream(rows, false)).as_str(),
    ).concat(" stdout B · ").concat(signed_wide(sum_stream(rows, true)).as_str()).concat(" stderr B");
    let mut out: Text = Text::new().ln(styled(h.as_str(), bold()));
    let v: &Vec<(i64, i64, String)> = &app.shown.output_segs;
    let ghost segs = segs_v(v@);
    assert(segs.len() == v@.len());
    if v.len() == 0 {
        out = out.ln(raw("(no captured output)"));
        assert(out@ =~= app.outputs_pane().0);
        return (out, 0);
    }
    let sel: Option<i64> = if app.lists.outputs.sel < rows.len() {
        rows[app.lists.outputs.sel].get_i64("id")
    } else {
        None
    };
    let ghost want = app.sel_output();
    let (total, at): (usize, usize) = places(v, sel);
    let (from, to): (usize, usize) = cut_window(total, at);
    if from > 0 {
        let s: String = own("  … ").concat(size_text(from).as_str()).concat(" earlier");
        out = out.ln(styled(s.as_str(), dim()));
    }
    let ghost head = out@;
    assert(head =~= seq![app.output_totals()] + (if from > 0 {
        seq![styled_line("  … "@ + bytes_text(signed(from as int)) + " earlier"@, dim())]
    } else {
        Seq::empty()
    }));
    let mut sel_line: usize = 0;
    let mut pos: usize = 0;
    let mut i: usize = 0;
    while i < v.len()
        invariant
            i <= v@.len(),
            v == &app.shown.output_segs,
            segs == segs_v(v@),
            want == (match sel {
                Some(n) => Some(n as int),
                None => None,
            }),
            pos == seg_at(segs, i as int),
            (out@, sel_line as int) == transcript(head, segs, i as int, from as int, to as int, want),
        decreases v@.len() - i,
    {
        assert(segs[i as int] == seg_v(v@[i as int]));
        let len: usize = bytes_of(v[i].2.as_str());
        let start: usize = pos;
        let end: usize = pos.saturating_add(len);
        pos = end;
        let ghost o = out@;
        let mine: bool = match sel {
            Some(n) => v[i].0 == n,
            None => false,
        };
        if end <= from || start >= to {
            assert(o + Seq::<LineV>::empty() =~= o);
        } else {
            let lo: usize = from.saturating_sub(start);
            let over: usize = end.saturating_sub(to);
            assert(over <= len);
            let hi: usize = len - over;
            if mine && sel_line == 0 {
                sel_line = out.len();
            }
            out = add_segment(out, &v[i], lo, hi, mine);
        }
        i += 1;
    }
    let ghost body = out@;
    if to < total {
        let s: String = own("  … ").concat(size_text(total - to).as_str()).concat(" more");
        out = out.ln(styled(s.as_str(), dim()));
    }
    assert(out@ =~= body + (if to < total {
        seq![styled_line("  … "@ + bytes_text(signed(total - to)) + " more"@, dim())]
    } else {
        Seq::empty()
    }));
    (out, sel_line)
}

} // verus!
