//! The columns of the lists, the parts of the details, and the lines of the dialogs.

use vstd::prelude::*;

#[allow(unused_imports)]
use crate::app::App;
#[allow(unused_imports)]
use crate::boxpane::{box_head, box_label, change_item, edge_item, failure_item, item_lines, process_item, section_lines, tail_lines, Section};
#[allow(unused_imports)]
use crate::boxes::text_le;
#[allow(unused_imports)]
use crate::callpane::{api_line, exchange, flow_line, packet_line, web_line};
#[allow(unused_imports)]
use crate::json::{jvs, JV};
#[allow(unused_imports)]
use crate::laws::writing::law_padding_only_adds_spaces;
#[allow(unused_imports)]
use crate::modalview::{confirm_body, endpoint_body, field_line, filter_line, masked, menu_lines, model_lines, pick_lines, typed_body};
#[allow(unused_imports)]
use crate::outpane::write_line;
#[allow(unused_imports)]
use crate::pipepane::{edge_detail, edge_head, excerpt, files, neighbour, pipe_facts, pipe_times, recipe};
#[allow(unused_imports)]
use crate::procpane::{by_name, env_lines, proc_head, put_by_name, ProcV};
#[allow(unused_imports)]
use crate::render::{as_they_are, clock, filled, legend_width, raw_listed, six_decimals, texts_at, texts_in, three_decimals};
#[allow(unused_imports)]
use crate::rules::{ClauseV, Join};
#[allow(unused_imports)]
use crate::style::{bold, cursor, fg, fg_bold, plain, raw_line, styled_line, Color, LineV};
#[allow(unused_imports)]
use crate::text::{dec, first, joined, lines, padl, padr, rep, sdec, strs};
#[allow(unused_imports)]
use crate::types::{ApiField, ClauseField, ItemV, ModelV, PickV};
#[allow(unused_imports)]
use crate::vars::var_line;

verus! {

/// A call that a box made shows its time, its method, its status, its path and its model, and is
/// red where it failed.
pub proof fn law_a_row_shows_its_call(r: JV, status: i64, on: bool)
    requires
        r.get("status"@) == Some(JV::Int(status as int)),
    ensures
        api_line(r, on).spans.len() == 1,
        on ==> api_line(r, on).spans[0].style == cursor(),
        !on && status >= 400 ==> api_line(r, on).spans[0].style == fg(Color::Red),
        !on && 200 <= status < 300 ==> api_line(r, on).spans[0].style == fg(Color::Reset),
        api_line(r, on).spans[0].text == padr(clock(r.num_at("ts"@)), 8) + " "@ + padr(r.str_or("method"@, "?"@), 6)
            + " "@ + padr(sdec(status as int), 5) + " "@ + padr(first(r.str_or("path"@, ""@), 24), 24) + " "@ + padr(
            first(r.str_or("model"@, ""@), 12),
            12,
        ) + " "@ + padl(sdec(r.i64_or("resp_len"@, 0)), 7),
{
}

/// A page that a box asked for shows its time, its method, its status, its type and its address, and
/// whether it was cut off.
pub proof fn law_a_row_shows_its_page(r: JV, status: i64, on: bool)
    requires
        r.get("status"@) == Some(JV::Int(status as int)),
    ensures
        web_line(r, on).spans.len() == 1,
        on ==> web_line(r, on).spans[0].style == cursor(),
        !on && status >= 400 ==> web_line(r, on).spans[0].style == fg(Color::Red),
        web_line(r, on).spans[0].text == padr(clock(r.num_at("ts"@)), 8) + " "@ + padr(r.str_or("method"@, "?"@), 6)
            + " "@ + padr(sdec(status as int), 4) + " "@ + padr(first(r.str_or("mime"@, ""@), 16), 16) + " "@ + padl(
            sdec(r.i64_or("resp_len"@, 0)),
            7,
        ) + " "@ + (if r.i64_or("truncated"@, 0) != 0 { "‡"@ } else { ""@ }) + r.str_or("url"@, ""@),
{
}

/// What was asked stands before what was answered.
pub proof fn law_requests_stand_before_answers(d: JV, req: Seq<char>, resp: Seq<char>)
    requires
        d.get("req"@) == Some(JV::Str(req)),
        d.get("resp"@) == Some(JV::Str(resp)),
    ensures
        ({
            let e = exchange(d);
            let n = lines(req).len() as int;
            &&& e.len() == 3 + n + lines(resp).len()
            &&& e[0] == styled_line("REQUEST"@, fg_bold(Color::Yellow))
            &&& forall|i: int| 0 <= i < n ==> #[trigger] e[1 + i] == raw_line(lines(req)[i])
            &&& e[n + 2] == styled_line("RESPONSE"@, fg_bold(Color::Green))
            &&& forall|i: int| 0 <= i < lines(resp).len() ==> #[trigger] e[n + 3 + i] == raw_line(lines(resp)[i])
        }),
{
}

/// A flow shows whether it could be read, when it was, with whom, what was asked and what came of
/// it.
pub proof fn law_a_row_shows_its_flow(r: JV, method: Seq<char>, status: Seq<char>, host: Seq<char>)
    requires
        r.get("method"@) == Some(JV::Str(method)),
        r.get("status"@) == Some(JV::Str(status)),
        r.get("host"@) == Some(JV::Str(host)),
        method.len() > 0,
        status.len() > 0,
        host.len() > 0,
    ensures
        flow_line(r).spans.len() == 6,
        flow_line(r).spans[0].text == "R"@ + "  "@,
        flow_line(r).spans[1].text == padl(three_decimals(r.num_at("t"@)), 7) + "s  "@,
        flow_line(r).spans[2].text == host,
        flow_line(r).spans[3].text == "  "@ + method + " "@,
        flow_line(r).spans[5].text == "  → "@ + status,
        status[0] == '2' ==> flow_line(r).spans[5].style == fg(Color::Green),
        status[0] == '5' ==> flow_line(r).spans[5].style == fg(Color::Red),
{
}

/// A packet shows its number, when it was, from where to where, its protocol and its length.
pub proof fn law_a_row_shows_its_packet(r: JV)
    ensures
        packet_line(r).spans.len() == 6,
        packet_line(r).spans[0].text == padl(dec(r.u64_or("frame"@, 0)), 5) + "  "@,
        packet_line(r).spans[1].text == padl(three_decimals(r.num_at("t"@)), 7) + "s  "@,
        packet_line(r).spans[2].text == padl(r.str_or("src"@, ""@), 15) + " → "@ + padr(r.str_or("dst"@, ""@), 15) + "  "@,
        packet_line(r).spans[3].text == padr(r.str_or("proto"@, ""@), 9) + " "@,
        packet_line(r).spans[4].text == padl(dec(r.u64_or("len"@, 0)), 5) + "  "@,
{
}

/// An output shows its time, its stream, its writer and its length.
pub proof fn law_a_row_shows_its_output(o: JV, on: bool)
    ensures
        write_line(o, on).spans.len() == 1,
        write_line(o, on).spans[0].text == padr(clock(o.num_at("ts"@)), 8) + " "@ + padr(
            if o.i64_or("stream"@, 0) == 1 { "err"@ } else { "out"@ },
            6,
        ) + " "@ + padr(first(crate::outpane::writer_label(o), 20), 20) + " "@ + padl(sdec(o.i64_or("len"@, 0)), 10),
{
}

/// The head of the detail of a box: what it is called, how it ended, its command, its process and
/// how many files it changed.
pub proof fn law_the_detail_shows_its_box(s: JV, changes: int, now: crate::num::NumV)
    ensures
        box_head(s, changes, now).len() == 6,
        box_head(s, changes, now)[0].spans[0].text == box_label(s),
        box_head(s, changes, now)[1].spans[1].text == s.str_or("status"@, ""@),
        box_head(s, changes, now)[2].spans[1].text == joined(texts_at(s, "cmd"@), " "@),
        box_head(s, changes, now)[4].spans[1].text == crate::fmt::files_text(changes),
{
}

proof fn lemma_tail(k: Section, rows: Seq<JV>, n: int, w: int)
    requires
        k != Section::Failures,
        0 <= n <= rows.len(),
    ensures
        tail_lines(k, rows, n, w).len() == n,
        forall|i: int| 0 <= i < n ==> #[trigger] tail_lines(k, rows, n, w)[i] == item_lines(k, rows[n - 1 - i], w)[0],
    decreases n,
{
    if n > 0 {
        lemma_tail(k, rows, n - 1, w);
        let rest = tail_lines(k, rows, n - 1, w);
        let all = tail_lines(k, rows, n, w);
        assert(item_lines(k, rows[n - 1], w).len() == 1);
        assert forall|i: int| 0 <= i < n implies #[trigger] all[i] == item_lines(k, rows[n - 1 - i], w)[0] by {
            if i > 0 {
                assert(all[i] == rest[i - 1]);
            }
        }
    }
}

/// A part of the detail of a box has its head, and below it a line for each row that there is room
/// for.
pub proof fn law_parts_show_their_rows(k: Section, rows: Seq<JV>, budget: int, w: int)
    requires
        k != Section::Failures,
        rows.len() > 0,
        budget >= 1,
    ensures
        ({
            let n = if rows.len() < budget { rows.len() as int } else { budget };
            let s = section_lines(k, rows, budget, w);
            &&& s.len() == n + 2
            &&& forall|i: int| 0 <= i < n ==> #[trigger] s[1 + i] == item_lines(k, rows[n - 1 - i], w)[0]
        }),
        section_lines(k, Seq::empty(), budget, w).len() == 0,
        item_lines(Section::Changes, rows[0], w)[0] == change_item(rows[0]),
        item_lines(Section::Processes, rows[0], w)[0] == process_item(rows[0]),
        item_lines(Section::Edges, rows[0], w)[0] == edge_item(rows[0]),
{
    let n = if rows.len() < budget { rows.len() as int } else { budget };
    lemma_tail(k, rows, n, w);
    let s = section_lines(k, rows, budget, w);
    let t = tail_lines(k, rows, n, w);
    assert forall|i: int| 0 <= i < n implies #[trigger] s[1 + i] == item_lines(k, rows[n - 1 - i], w)[0] by {
        assert(s[1 + i] == t[i]);
    }
}

/// A failure shows what failed, with which code, and the first line that it wrote.
pub proof fn law_failures_show_what_failed(r: JV, w: int, code: i64)
    requires
        r.get("code"@) == Some(JV::Int(code as int)),
    ensures
        failure_item(r, w).len() >= 1,
        failure_item(r, w)[0].spans.len() == 4,
        r.get("kind"@) == Some(JV::Str("edge"@)) ==> failure_item(r, w)[0].spans[1].text == "✗"@ + "E"@ + " "@,
        failure_item(r, w)[0].spans[3].text == "  exit "@ + sdec(code as int),
        r.get("excerpt"@) is None ==> failure_item(r, w).len() == 1,
{
}

/// The detail of a process shows its numbers, its program and its arguments.
pub proof fn law_the_detail_shows_its_process(p: ProcV)
    ensures
        proc_head(p).len() == 5,
        proc_head(p)[0].spans[0].text == "tgid "@ + sdec(p.tgid) + "  ppid "@ + sdec(p.ppid),
        p.exe.len() > 0 ==> proc_head(p)[1].spans[1].text == p.exe,
        proc_head(p)[2].spans[1].text == joined(p.argv, " "@),
{
}

proof fn lemma_put(s: Seq<(Seq<char>, Seq<char>)>, e: (Seq<char>, Seq<char>))
    ensures
        put_by_name(s, e).to_multiset() =~= s.to_multiset().insert(e),
        put_by_name(s, e).len() == s.len() + 1,
    decreases s.len(),
{
    broadcast use vstd::seq_lib::group_to_multiset_ensures;

    if s.len() == 0 {
        assert(put_by_name(s, e) =~= s.push(e));
    } else if text_le(s.last().0, e.0) {
    } else {
        lemma_put(s.drop_last(), e);
        assert(s =~= s.drop_last().push(s.last()));
    }
}

/// Every variable of an environment is shown once, with its value.
pub proof fn law_every_variable_is_shown(m: Seq<(Seq<char>, JV)>)
    requires
        forall|i: int| 0 <= i < m.len() ==> (#[trigger] m[i]).1 is Str,
    ensures
        by_name(m).len() == m.len(),
        by_name(m).to_multiset() =~= m.map_values(|e: (Seq<char>, JV)| (e.0, e.1->Str_0)).to_multiset(),
    decreases m.len(),
{
    broadcast use vstd::seq_lib::group_to_multiset_ensures;

    let f = |e: (Seq<char>, JV)| (e.0, e.1->Str_0);
    if m.len() > 0 {
        let front = m.drop_last();
        assert forall|i: int| 0 <= i < front.len() implies (#[trigger] front[i]).1 is Str by {
            assert(front[i] == m[i]);
        }
        law_every_variable_is_shown(front);
        assert(m[m.len() - 1].1 is Str);
        let e = (m.last().0, m.last().1->Str_0);
        lemma_put(by_name(front), e);
        assert(m.map_values(f) =~= front.map_values(f).push(e));
    } else {
        assert(m.map_values(f) =~= Seq::<(Seq<char>, Seq<char>)>::empty());
        assert(by_name(m) =~= Seq::<(Seq<char>, Seq<char>)>::empty());
    }
}

/// The detail of a target: its number, when it was, how it went, what it makes, what it needs, how
/// it is made and what that wrote.
pub proof fn law_the_detail_shows_its_target(r: JV, outs: Seq<Seq<char>>, ins: Seq<Seq<char>>)
    requires
        outs == texts_at(r, "outs"@),
        ins == texts_at(r, "ins"@),
        outs.len() > 0,
        ins.len() > 0,
    ensures
        ({
            let d = edge_detail(r);
            let n = outs.len() as int;
            let m = ins.len() as int;
            &&& d.len() >= 9 + n + m
            &&& d[0].spans[1].text == sdec(r.i64_or("id"@, 0))
            &&& d[1].spans[1].text == six_decimals(r.num_at("ts"@))
            &&& d[4] == styled_line("outputs"@, fg_bold(Color::Green))
            &&& forall|i: int| 0 <= i < n ==> #[trigger] d[5 + i] == raw_line("  "@ + outs[i])
            &&& d[n + 6] == styled_line("inputs"@, fg_bold(Color::Cyan))
            &&& forall|i: int| 0 <= i < m ==> #[trigger] d[n + 7 + i] == raw_line("  "@ + ins[i])
        }),
{
}

/// A recipe is shown whole, and a target without one as such.
pub proof fn law_a_recipe_is_shown_whole(cmd: Seq<char>)
    ensures
        cmd.len() > 0 ==> recipe(cmd).len() == 2 && recipe(cmd)[1] == raw_line(cmd),
        cmd.len() == 0 ==> recipe(cmd).len() == 1,
{
}

/// The detail of a pipeline: its number, where it came from, its command and how it ended.
pub proof fn law_the_detail_shows_its_pipeline(r: JV, code: i64)
    requires
        r.get("exit_code"@) == Some(JV::Int(code as int)),
        r.num_at("done_ts"@).above_zero(),
        r.get("spawn_ts"@) is None,
    ensures
        pipe_facts(r).len() == 8,
        pipe_facts(r)[0].spans[1].text == sdec(r.i64_or("id"@, 0)),
        pipe_facts(r)[3].spans[1].text == six_decimals(r.num_at("ts"@)),
        pipe_facts(r)[5].spans[1].text == sdec(code as int),
        code == 0 ==> pipe_facts(r)[5].spans[1].style == bold(),
        code != 0 ==> pipe_facts(r)[5].spans[1].style == fg_bold(Color::Red),
        pipe_facts(r)[6].spans[1].text == r.str_or("cmd"@, ""@),
{
}

/// An assignment shows how the variable was set, its name and its value.
pub proof fn law_a_row_shows_its_variable(r: JV, on: bool)
    ensures
        var_line(r, on).spans.len() == 1,
        on ==> var_line(r, on).spans[0].style == cursor(),
        var_line(r, on).spans[0].text == padr(crate::vars::row_letters(r), 4) + " "@ + padr(
            first(r.str_or("name"@, ""@), 26),
            26,
        ) + " "@ + crate::render::flat(r.str_or("value"@, ""@), 96),
{
}

/// The lines of a legend are no wider than there is room for, where no word is.
pub proof fn law_legends_fit(ws: Seq<Seq<char>>, cur: Seq<char>, w: int)
    requires
        cur.len() <= w,
        forall|i: int| 0 <= i < ws.len() ==> (#[trigger] ws[i]).len() <= w,
    ensures
        forall|i: int| 0 <= i < filled(ws, cur, w).len() ==> (#[trigger] filled(ws, cur, w)[i]).len() <= w,
    decreases ws.len(),
{
    if ws.len() > 0 {
        let next = ws[0];
        let rest = ws.drop_first();
        assert forall|i: int| 0 <= i < rest.len() implies (#[trigger] rest[i]).len() <= w by {
            assert(rest[i] == ws[i + 1]);
        }
        reveal_strlit(" ");
        assert(" "@.len() == 1);
        assert(next.len() <= w);
        if cur.len() == 0 {
            law_legends_fit(rest, next, w);
            assert(filled(ws, cur, w) == filled(rest, next, w));
        } else if cur.len() + 1 + next.len() > w {
            law_legends_fit(rest, next, w);
            let tail = filled(rest, next, w);
            assert(filled(ws, cur, w) == seq![cur] + tail);
            assert forall|i: int| 0 <= i < filled(ws, cur, w).len() implies (#[trigger] filled(ws, cur, w)[i]).len()
                <= w by {
                if i > 0 {
                    assert(filled(ws, cur, w)[i] == tail[i - 1]);
                }
            }
        } else {
            let longer = cur + " "@ + next;
            law_legends_fit(rest, longer, w);
            assert(filled(ws, cur, w) == filled(rest, longer, w));
        }
    }
}

/// In a menu the entry at the cursor stands out, and every entry shows its label.
pub proof fn law_the_entry_at_the_cursor_stands_out(items: Seq<ItemV>, sel: int, i: int)
    requires
        0 <= i < items.len(),
    ensures
        menu_lines(items, sel).len() == items.len(),
        menu_lines(items, sel)[i].spans.len() == 2,
        menu_lines(items, sel)[i].spans[0].style == (if i == sel { cursor() } else { plain() }),
        menu_lines(items, sel)[i].spans[1].text == "  "@ + items[i].hint,
        menu_lines(items, sel)[i].spans[0].text.len() >= 2 + items[i].label.len(),
        menu_lines(items, sel)[i].spans[0].text.subrange(2, 2 + items[i].label.len() as int) == items[i].label,
{
    reveal_strlit("  ");
    let w = crate::modalview::label_width(items, items.len() as int, 20);
    law_padding_only_adds_spaces(items[i].label, w);
    assert(menu_lines(items, sel)[i].spans[0].text.subrange(2, 2 + items[i].label.len() as int) =~= padr(
        items[i].label,
        w,
    ).take(items[i].label.len() as int));
}

/// In the list of images and in that of models the one at the cursor stands out.
pub proof fn law_the_pick_at_the_cursor_stands_out(items: Seq<PickV>, models: Seq<ModelV>, sel: int, i: int)
    ensures
        0 <= i < items.len() ==> pick_lines(items, sel)[i].spans[0].style == (if i == sel { cursor() } else { plain() })
            && pick_lines(items, sel)[i].spans[1].text == "  "@ + items[i].detail,
        0 <= i < models.len() ==> model_lines(models, sel)[i].spans[0].style == (if i == sel { cursor() } else { plain() })
            && model_lines(models, sel)[i].spans[0].text == "  "@ + models[i].name,
        pick_lines(items, sel).len() == items.len(),
        model_lines(models, sel).len() == models.len(),
{
}

/// A clause in the filter dialog shows its kind, its pattern and its switches, each as it is set.
pub proof fn law_a_clause_shows_its_switches(r: ClauseV, is_first: bool)
    ensures
        filter_line(r, is_first, None).spans.len() == 10,
        filter_line(r, is_first, None).spans[1].style == (if r.enabled {
            fg_bold(Color::Yellow)
        } else {
            crate::style::dim()
        }),
        filter_line(r, is_first, None).spans[5].style == (if r.negate {
            fg_bold(Color::Yellow)
        } else {
            crate::style::dim()
        }),
        filter_line(r, false, None).spans[3].text == (if r.join == Join::Or { "or "@ } else { "and"@ }),
        filter_line(r, is_first, None).spans[7].text == padr(r.kind, 5),
        filter_line(r, is_first, None).spans[9].text == r.pattern,
        filter_line(r, is_first, Some(ClauseField::Pattern)).spans[9].text == r.pattern + "_"@,
{
}

/// A question is shown as it is put, a text as far as it is typed, and a key of an endpoint only by
/// its length.
pub proof fn law_dialogs_show_what_they_are_about(prompt: Seq<char>, help: Seq<char>, base_url: Seq<char>, model: Seq<char>, api_key: Seq<char>, result: Seq<char>)
    ensures
        confirm_body(prompt)[0] == raw_line(prompt),
        typed_body(prompt, help)[0] == raw_line(prompt + "_"@),
        typed_body(prompt, help)[2] == raw_line(help),
        endpoint_body(base_url, model, api_key, ApiField::Model, result, false)[2].spans[2].text == model + "_"@,
        endpoint_body(base_url, model, api_key, ApiField::BaseUrl, result, false)[2].spans[2].text == model,
        base_url.len() > 0 ==> endpoint_body(base_url, model, api_key, ApiField::Model, result, false)[3].spans[2].text
            == base_url,
        endpoint_body(base_url, model, api_key, ApiField::Model, result, false)[4].spans[2].text.len() <= 24,
        forall|i: int|
            0 <= i < masked(api_key).len() ==> #[trigger] endpoint_body(
                base_url,
                model,
                api_key,
                ApiField::Model,
                result,
                false,
            )[4].spans[2].text[i] == '•',
{
}

proof fn lemma_texts(v: Seq<Seq<char>>)
    ensures
        texts_in(v.map_values(|s: Seq<char>| JV::Str(s))) == v,
    decreases v.len(),
{
    let w = v.map_values(|s: Seq<char>| JV::Str(s));
    if v.len() > 0 {
        lemma_texts(v.drop_last());
        assert(w.drop_last() =~= v.drop_last().map_values(|s: Seq<char>| JV::Str(s)));
        assert(w.last() == JV::Str(v.last()));
    }
    assert(texts_in(w) =~= v);
}

/// The texts of a list are all shown, in their order.
pub proof fn law_texts_of_a_list_are_all_shown(r: JV, k: Seq<char>, v: Seq<Seq<char>>)
    requires
        r.get(k) == Some(JV::Arr(v.map_values(|s: Seq<char>| JV::Str(s)))),
    ensures
        texts_at(r, k) == v,
{
    lemma_texts(v);
}

} // verus!
