//! What the lists and the details show of their rows.

use vstd::prelude::*;

#[allow(unused_imports)]
use crate::app::App;
#[allow(unused_imports)]
use crate::boxpane::{box_style, box_text, change_sign, list_label, output_item, section_lines, Section};
#[allow(unused_imports)]
use crate::changepane::{change_line, diff_line, hunk_text, hunks_text, kind_sign, text_diff};
#[allow(unused_imports)]
use crate::fmt::{dur_text, flag_of};
#[allow(unused_imports)]
use crate::json::{jvs, JV};
#[allow(unused_imports)]
use crate::laws::writing::{law_flags_of_the_boxes, law_padding_only_adds_spaces};
#[allow(unused_imports)]
use crate::num::NumV;
#[allow(unused_imports)]
use crate::outpane::{between, char_bytes, pieces, seg_at, seg_lines, text_bytes, transcript, transcript_line, write_line, write_lines};
#[allow(unused_imports)]
use crate::pipepane::{edge_dur, edge_line, edge_sign, edge_state, pipe_dur, pipe_dur_style, pipe_line, pipe_times};
#[allow(unused_imports)]
use crate::procpane::{proc_line, proc_of, ProcV};
#[allow(unused_imports)]
use crate::render::{indent_of, raw_listed, texts_at};
#[allow(unused_imports)]
use crate::style::{bold, cursor, fg, fg_bold, plain, raw_line, styled_line, Color, LineV, SpanV, Style};
#[allow(unused_imports)]
use crate::text::{dec, first, joined, lines, padl, padr, sdec};
#[allow(unused_imports)]
use crate::types::Pane;

verus! {

/// The row of a box: whether it is selected, the letter of how it ended, its name, its process and
/// its command, each in its column.
pub proof fn law_a_row_shows_its_box(s: JV, depth: int, chain: bool, marked: bool, cw: int, now: NumV)
    requires
        depth >= 0,
        cw >= 0,
    ensures
        ({
            let t = box_text(s, depth, chain, marked, cw, now);
            let name = first(indent_of(depth, chain) + list_label(s), 24);
            let cmd = first(joined(texts_at(s, "cmd"@), " "@), cw);
            &&& t.len() >= 37 + cw
            &&& t.take(1) == (if marked { "◆"@ } else { " "@ })
            &&& s.get("status"@) == Some(JV::Str("running"@)) ==> t.subrange(1, 2) == "R"@
            &&& s.get("status"@) == Some(JV::Str("finished"@)) ==> t.subrange(1, 2) == "F"@
            &&& s.get("status"@) == Some(JV::Str("killed"@)) ==> t.subrange(1, 2) == "K"@
            &&& s.get("status"@) == Some(JV::Str("error"@)) ==> t.subrange(1, 2) == "E"@
            &&& t.subrange(3, 3int + name.len()) == name
            &&& s.i64_or("pid"@, 0) > 0 && sdec(s.i64_or("pid"@, 0)).len() <= 6 ==> t.subrange(
                28,
                28int + sdec(s.i64_or("pid"@, 0)).len(),
            ) == sdec(s.i64_or("pid"@, 0)) && t.subrange(35, 35 + cw).take(cmd.len() as int) == cmd
        }),
{
    let t = box_text(s, depth, chain, marked, cw, now);
    let name = first(indent_of(depth, chain) + list_label(s), 24);
    let cmd = first(joined(texts_at(s, "cmd"@), " "@), cw);
    let pid = s.i64_or("pid"@, 0);
    let pid_text = if pid > 0 { sdec(pid) } else { ""@ };
    let letter = flag_of(s.str_or("status"@, ""@)).0;
    law_flags_of_the_boxes();
    reveal_strlit("◆");
    reveal_strlit(" ");
    reveal_strlit("R");
    reveal_strlit("F");
    reveal_strlit("K");
    reveal_strlit("E");
    reveal_strlit("?");
    reveal_strlit("");
    law_padding_only_adds_spaces(letter, 1);
    law_padding_only_adds_spaces(name, 24);
    law_padding_only_adds_spaces(pid_text, 6);
    law_padding_only_adds_spaces(cmd, cw);
    law_padding_only_adds_spaces(crate::boxpane::box_age(s, now), 6);
    assert(letter.len() == 1);
    assert(padr(letter, 1) =~= letter);
    assert(t.take(1) =~= (if marked { "◆"@ } else { " "@ }));
    assert(t.subrange(1, 2) =~= letter);
    assert(t.subrange(3, 3int + name.len()) =~= padr(name, 24).take(name.len() as int));
    if pid_text.len() <= 6 {
        assert(t.subrange(28, 28int + pid_text.len()) =~= padr(pid_text, 6).take(pid_text.len() as int));
        assert(t.subrange(35, 35 + cw).take(cmd.len() as int) =~= padr(cmd, cw).take(cmd.len() as int));
    }
}

/// A box is known by its name, else by the last part of its path, else by its number.
pub proof fn law_a_box_is_known_by_its_name(s: JV, name: Seq<char>, path: Seq<char>, id: Seq<char>)
    requires
        s.get("session_id"@) == Some(JV::Str(id)),
    ensures
        name.len() > 0 && s.get("name"@) == Some(JV::Str(name)) ==> list_label(s) == name,
        s.get("name"@) is None && s.get("path"@) is None ==> list_label(s) == id,
{
    reveal_strlit("");
}

/// The rows of the boxes are in their order, one for each; the one at the cursor stands out.
pub proof fn law_every_box_has_a_row(a: App, width: int, now: NumV, i: int)
    requires
        0 <= i < a.boxes.sessions@.len(),
    ensures
        a.sessions_pane(width, now).len() == 1 + a.boxes.sessions@.len(),
        a.sessions_pane(width, now)[1 + i].spans.len() == 1,
        i == a.boxes.sel ==> a.sessions_pane(width, now)[1 + i].spans[0].style == cursor(),
        i != a.boxes.sel && a.marks_here().contains(a.boxes.sessions@[i]@.str_or("session_id"@, ""@))
            ==> a.sessions_pane(width, now)[1 + i].spans[0].style == fg_bold(Color::Green),
        i != a.boxes.sel && !a.marks_here().contains(a.boxes.sessions@[i]@.str_or("session_id"@, ""@))
            ==> a.sessions_pane(width, now)[1 + i].spans[0].style == fg(
            flag_of(a.boxes.sessions@[i]@.str_or("status"@, ""@)).1,
        ),
{
    assert(jvs(a.boxes.sessions@).len() == a.boxes.sessions@.len());
}

proof fn lemma_kinds()
    ensures
        kind_sign("created"@) == ("+"@, Color::Green),
        kind_sign("modified"@) == ("~"@, Color::Yellow),
        kind_sign("changed"@) == ("~"@, Color::Yellow),
        kind_sign("deleted"@) == ("-"@, Color::Red),
        kind_sign("symlink"@) == ("~"@, Color::Magenta),
        kind_sign("xattr"@) == ("@"@, Color::Cyan),
{
    reveal_strlit("created");
    reveal_strlit("modified");
    reveal_strlit("changed");
    reveal_strlit("deleted");
    reveal_strlit("symlink");
    reveal_strlit("xattr");
    assert("created"@[0] == 'c' && "created"@[1] == 'r');
    assert("modified"@[0] == 'm');
    assert("changed"@[0] == 'c' && "changed"@[1] == 'h');
    assert("deleted"@[0] == 'd');
    assert("symlink"@[0] == 's');
    assert("xattr"@[0] == 'x');
}

/// The sign of a change says what became of the file.
pub proof fn law_signs_of_the_changes()
    ensures
        kind_sign("created"@) == ("+"@, Color::Green),
        kind_sign("modified"@) == ("~"@, Color::Yellow),
        kind_sign("changed"@) == ("~"@, Color::Yellow),
        kind_sign("deleted"@) == ("-"@, Color::Red),
        kind_sign("symlink"@) == ("~"@, Color::Magenta),
        kind_sign("xattr"@) == ("@"@, Color::Cyan),
        change_sign("deleted"@) == ("-"@, Color::Red),
        change_sign("changed"@) == ("~"@, Color::Yellow),
{
    lemma_kinds();
    reveal_strlit("changed");
    reveal_strlit("deleted");
    reveal_strlit("symlink");
    reveal_strlit("xattr");
    assert("changed"@[0] == 'c' && "deleted"@[0] == 'd' && "symlink"@[0] == 's' && "xattr"@[0] == 'x');
}

/// The row of a change: whether it is selected, its sign, whether the host's file has changed
/// meanwhile, and its name.
pub proof fn law_a_row_shows_its_change(c: JV, kind: Seq<char>, stale: bool, depth: int, chain: bool, marked: bool)
    requires
        c.get("connector"@) != Some(JV::Bool(true)),
        kind == "created"@ || kind == "modified"@ || kind == "deleted"@,
    ensures
        ({
            let l = change_line(c, (kind, stale), depth, chain, marked, false);
            &&& l.spans.len() == 5
            &&& l.spans[0].text == (if marked { "◆"@ } else { " "@ })
            &&& kind == "created"@ ==> l.spans[1].text == "+"@
            &&& kind == "modified"@ ==> l.spans[1].text == "~"@
            &&& kind == "deleted"@ ==> l.spans[1].text == "-"@
            &&& l.spans[2].text == (if stale { "!"@ } else { " "@ })
            &&& l.spans[3].text == " "@ + padl(
                if c.i64_or("size"@, 0) > 0 { crate::fmt::bytes_text(c.i64_or("size"@, 0)) } else { ""@ },
                10,
            ) + "  "@ + indent_of(depth, chain)
            &&& l.spans[4].text == c.str_or("name"@, ""@)
        }),
        change_line(c, (kind, stale), depth, chain, marked, true).spans[0].text == (if marked { "◆"@ } else { " "@ }) + (
        if kind == "created"@ {
            "+"@
        } else if kind == "modified"@ {
            "~"@
        } else {
            "-"@
        }) + padr(if stale { "!"@ } else { ""@ }, 1) + " "@ + padl(
            if c.i64_or("size"@, 0) > 0 { crate::fmt::bytes_text(c.i64_or("size"@, 0)) } else { ""@ },
            10,
        ) + "  "@ + indent_of(depth, chain) + c.str_or("name"@, ""@),
        change_line(c, (kind, stale), depth, chain, marked, true).spans.len() == 1,
        change_line(c, (kind, stale), depth, chain, marked, true).spans[0].style == cursor(),
{
    lemma_kinds();
    reveal_strlit("created");
    reveal_strlit("modified");
    reveal_strlit("deleted");
    assert("created"@.len() == 7 && "created"@[0] == 'c');
    assert("modified"@.len() == 8 && "modified"@[0] == 'm');
    assert("deleted"@.len() == 7 && "deleted"@[0] == 'd');
}

/// A line of a diff that was added begins with a plus and is green, one that was taken away with a
/// minus and is red, and its text is whole.
pub proof fn law_diff_lines_say_what_became_of_them(text: Seq<char>, on: bool)
    ensures
        ({
            let l = diff_line(JV::Arr(seq![JV::Str("+"@), JV::Str(text)]), on);
            l.spans.len() == 1 && l.spans[0].text == ""@ + "+"@ + text && l.spans[0].style.fg == Some(Color::Green)
                && l.spans[0].style.bold == on
        }),
        ({
            let l = diff_line(JV::Arr(seq![JV::Str("-"@), JV::Str(text)]), on);
            l.spans.len() == 1 && l.spans[0].text == ""@ + "-"@ + text && l.spans[0].style.fg == Some(Color::Red)
                && l.spans[0].style.bold == on
        }),
        ({
            let l = diff_line(JV::Arr(seq![JV::Str(" "@), JV::Str(text)]), on);
            l.spans.len() == 1 && l.spans[0].text == ""@ + " "@ + text && l.spans[0].style.fg == Some(Color::Gray)
        }),
        ({
            let l = diff_line(JV::Arr(seq![JV::Str("hdr"@), JV::Str(text)]), on);
            l.spans.len() == 1 && l.spans[0].text == (if on { "▶ "@ } else { "  "@ }) + ""@ + text
                && l.spans[0].style.fg == Some(Color::Cyan)
        }),
{
    reveal_strlit("+");
    reveal_strlit("-");
    reveal_strlit(" ");
    reveal_strlit("hdr");
    assert("+"@[0] == '+' && "-"@[0] == '-' && " "@[0] == ' ' && "hdr"@[0] == 'h');
}

/// Only the hunk at the cursor stands out.
pub proof fn law_only_the_hunk_at_the_cursor_stands_out(h: JV, n: i64, cur: Option<int>, i: int)
    requires
        h.get("index"@) == Some(JV::Int(n as int)),
        0 <= i < h.items("lines"@).len(),
    ensures
        hunk_text(h, cur).len() == h.items("lines"@).len(),
        hunk_text(h, cur)[i] == diff_line(h.items("lines"@)[i], cur == Some(n as int)),
{
}

/// A row of the processes shows the number and the name of the process, and its arguments.
pub proof fn law_a_row_shows_its_process(p: ProcV, depth: int, chain: bool, on: bool)
    requires
        !p.connector,
        p.argv.len() > 1,
        crate::procpane::rest_args(p).len() > 0,
    ensures
        ({
            let l = proc_line(p, depth, chain, on);
            &&& l.spans.len() == 4
            &&& l.spans[0].text == padl(sdec(p.tgid), 6) + "  "@
            &&& l.spans[3].text == " "@ + joined(p.argv.skip(1), " "@)
            &&& on ==> l.spans[0].style == cursor()
            &&& !on ==> l.spans[0].style == plain()
        }),
{
}

/// A process is what its row says: its numbers, its program, its arguments.
pub proof fn law_a_process_is_what_its_row_says(r: JV, rid: i64, tgid: i64, ppid: i64, exe: Seq<char>)
    requires
        r.get("rid"@) == Some(JV::Int(rid as int)),
        r.get("tgid"@) == Some(JV::Int(tgid as int)),
        r.get("ppid"@) == Some(JV::Int(ppid as int)),
        r.get("exe"@) == Some(JV::Str(exe)),
    ensures
        proc_of(r).rid == rid,
        proc_of(r).tgid == tgid,
        proc_of(r).ppid == ppid,
        proc_of(r).exe == exe,
        proc_of(r).argv == texts_at(r, "argv"@),
        proc_of(r).connector == (r.get("connector"@) == Some(JV::Bool(true))),
{
}

/// What was written to the error stream is told from what was written to the other.
pub proof fn law_streams_are_told_apart(o: JV, on: bool)
    ensures
        o.get("stream"@) == Some(JV::Int(1)) && !on ==> write_line(o, on).spans[0].style == fg(Color::Red),
        o.get("stream"@) == Some(JV::Int(0)) && !on ==> write_line(o, on).spans[0].style == fg(Color::Reset),
        on ==> write_line(o, on).spans[0].style == cursor(),
        o.get("stream"@) == Some(JV::Int(1)) ==> output_item(o, 80).spans[1].text == "err"@ && output_item(
            o,
            80,
        ).spans[1].style == fg(Color::Red),
        o.get("stream"@) == Some(JV::Int(0)) ==> output_item(o, 80).spans[1].text == "out"@ && output_item(
            o,
            80,
        ).spans[1].style == fg(Color::Green),
{
}

proof fn lemma_all_between(s: Seq<char>, at: int, hi: int)
    requires
        at >= 0,
        at + text_bytes(s) <= hi,
    ensures
        between(s, at, 0, hi) == s,
        text_bytes(s) >= 0,
    decreases s.len(),
{
    if s.len() > 0 {
        let t = s.drop_first();
        lemma_bytes_front(s);
        lemma_bytes(t);
        lemma_all_between(t, at + char_bytes(s[0]), hi);
        assert(between(s, at, 0, hi) =~= seq![s[0]] + t);
        assert(seq![s[0]] + t =~= s);
    } else {
        assert(between(s, at, 0, hi) =~= s);
    }
}

proof fn lemma_bytes(s: Seq<char>)
    ensures
        text_bytes(s) >= 0,
    decreases s.len(),
{
    if s.len() > 0 {
        lemma_bytes(s.drop_last());
    }
}

proof fn lemma_bytes_front(s: Seq<char>)
    requires
        s.len() > 0,
    ensures
        text_bytes(s) == char_bytes(s[0]) + text_bytes(s.drop_first()),
    decreases s.len(),
{
    let t = s.drop_first();
    if s.len() == 1 {
        assert(s.drop_last() =~= t);
        assert(text_bytes(t) == 0);
    } else {
        lemma_bytes_front(s.drop_last());
        assert(s.drop_last().drop_first() =~= t.drop_last());
        assert(t.last() == s.last());
        assert(s.drop_last()[0] == s[0]);
    }
}

/// Of an output that is shown whole, every line is shown, in its order, as what its stream and the
/// cursor say.
pub proof fn law_an_output_is_shown_whole(seg: (int, int, Seq<char>), at: int, to: int, sel: Option<int>)
    requires
        0 <= at,
        0 < text_bytes(seg.2) <= usize::MAX,
        at + text_bytes(seg.2) <= to,
    ensures
        seg_lines(seg, at, at + text_bytes(seg.2), 0, to, sel) == write_lines(seg.2).map_values(
            |l: Seq<char>| transcript_line(l, seg.1 == 1, sel == Some(seg.0)),
        ),
{
    lemma_all_between(seg.2, 0, text_bytes(seg.2));
    assert(seg_lines(seg, at, at + text_bytes(seg.2), 0, to, sel) =~= write_lines(seg.2).map_values(
        |l: Seq<char>| transcript_line(l, seg.1 == 1, sel == Some(seg.0)),
    ));
}

/// A pipeline that has not ended is shown to run; one that has is shown with the time that it took,
/// in red where it failed.
pub proof fn law_a_pipeline_shows_how_it_went(r: JV)
    ensures
        r.num_at("done_ts"@).size == 0 ==> pipe_dur(r) == "• run"@ && pipe_dur_style(r) == fg_bold(Color::Yellow),
        r.num_at("done_ts"@).above_zero() && r.num_at("spawn_ts"@).above_zero() ==> pipe_dur(r) == dur_text(
            r.num_at("done_ts"@).minus(r.num_at("spawn_ts"@)),
        ),
        r.num_at("done_ts"@).above_zero() && r.num_at("spawn_ts"@).above_zero() && r.get("exit_code"@) == Some(
            JV::Int(0),
        ) ==> pipe_dur_style(r) == fg(Color::DarkGray),
        r.num_at("done_ts"@).above_zero() && r.num_at("spawn_ts"@).above_zero() && r.get("exit_code"@) == Some(
            JV::Int(1),
        ) ==> pipe_dur_style(r) == fg_bold(Color::Red),
        pipe_line(r).spans.len() >= 5,
        pipe_line(r).spans[0].text == padl(sdec(r.i64_or("id"@, 0)), 4) + "  "@,
        pipe_line(r).spans[1].text == (if r.get("nested"@) == Some(JV::Bool(true)) { "N"@ } else { "T"@ }) + "  "@,
        pipe_line(r).spans[2].text == padl(pipe_dur(r), 7) + "  "@,
{
}

/// The pipeline at the cursor stands out, and no other.
pub proof fn law_the_pipeline_at_the_cursor_stands_out(a: App, i: int)
    requires
        0 <= i < a.lists.pipelines.rows@.len(),
    ensures
        a.pipe_rows().len() == a.lists.pipelines.rows@.len(),
        i != a.lists.pipelines.sel ==> a.pipe_rows()[i] == pipe_line(a.lists.pipelines.rows@[i]@),
        i == a.lists.pipelines.sel ==> forall|k: int|
            0 <= k < a.pipe_rows()[i].spans.len() ==> (#[trigger] a.pipe_rows()[i].spans[k]).style.reversed,
{
    assert(jvs(a.lists.pipelines.rows@).len() == a.lists.pipelines.rows@.len());
}

/// A target that is being built is shown to run; one that was built is shown with the time that it
/// took, in red where it failed; one without a recipe is shown as such.
pub proof fn law_a_target_shows_how_it_went(r: JV)
    ensures
        r.num_at("started_ts"@).above_zero() && r.num_at("ended_ts"@).size == 0 ==> edge_sign(r) == (
            "•"@,
            fg_bold(Color::Yellow),
        ) && edge_dur(r).0 == "• run"@ && edge_state(r).0 == "building…"@,
        r.num_at("started_ts"@).size == 0 && r.str_or("cmd"@, ""@).len() == 0 ==> edge_sign(r).0 == "P"@,
        r.num_at("started_ts"@).size == 0 && r.str_or("cmd"@, ""@).len() > 0 ==> edge_sign(r).0 == "R"@,
        r.num_at("started_ts"@).above_zero() && r.num_at("ended_ts"@).above_zero() ==> edge_dur(r).0 == dur_text(
            r.num_at("ended_ts"@).minus(r.num_at("started_ts"@)),
        ),
        r.num_at("started_ts"@).above_zero() && r.num_at("ended_ts"@).above_zero() && r.get("exit_code"@) == Some(
            JV::Int(0),
        ) ==> edge_dur(r).1 == fg(Color::DarkGray) && edge_state(r).1 == fg(Color::Green),
        r.num_at("started_ts"@).above_zero() && r.num_at("ended_ts"@).above_zero() && r.get("exit_code"@) == Some(
            JV::Int(1),
        ) ==> edge_dur(r).1 == fg_bold(Color::Red) && edge_state(r).1 == fg_bold(Color::Red),
        edge_line(r).spans.len() >= 4,
        texts_at(r, "outs"@).len() > 0 ==> edge_line(r).spans[2].text == texts_at(r, "outs"@)[0],
{
}

/// A line of plain text is shown as it is.
pub proof fn law_plain_text_is_shown_as_it_is(s: Seq<char>)
    requires
        s.len() > 0,
        !s.contains('\n'),
    ensures
        raw_line(s).spans == seq![SpanV { text: s, style: plain() }],
{
    crate::laws::writing::law_lines_end_at_breaks(s, Seq::empty());
    assert(raw_line(s).spans =~= seq![SpanV { text: s, style: plain() }]);
}

/// The changes, the processes and the outputs have one row for each row of their window, below their
/// heads.
pub proof fn law_every_row_is_shown(a: App, width: int)
    ensures
        a.lists.changes.rows@.len() > 0 ==> a.change_rows().len() == a.lists.changes.rows@.len() && a.changes_pane(
            width,
        ).len() >= a.lists.changes.rows@.len() && a.changes_pane(width).skip(
            a.changes_pane(width).len() - a.lists.changes.rows@.len(),
        ) == a.change_rows(),
        a.lists.processes.rows@.len() > 0 ==> a.processes_pane().len() == 1 + a.lists.processes.rows@.len(),
        a.lists.outputs.rows@.len() > 0 ==> a.outputs_index_pane().len() == 1 + a.lists.outputs.rows@.len(),
        a.side.flows.rows@.len() > 0 ==> a.flows_pane().len() == a.side.flows.rows@.len(),
        a.side.packets.rows@.len() > 0 ==> a.packets_pane().len() == a.side.packets.rows@.len(),
{
    assert(jvs(a.lists.changes.rows@).len() == a.lists.changes.rows@.len());
    assert(jvs(a.lists.processes.rows@).len() == a.lists.processes.rows@.len());
    assert(jvs(a.lists.outputs.rows@).len() == a.lists.outputs.rows@.len());
    assert(jvs(a.side.flows.rows@).len() == a.side.flows.rows@.len());
    assert(jvs(a.side.packets.rows@).len() == a.side.packets.rows@.len());
    if a.lists.changes.rows@.len() > 0 {
        assert(a.changes_pane(width).skip(a.changes_pane(width).len() - a.lists.changes.rows@.len()) =~= a.change_rows());
    }
}

} // verus!
