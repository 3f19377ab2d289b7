//! Opening rows, going to panes, starting, and what the bars and the pictures say.

use vstd::prelude::*;

#[allow(unused_imports)]
use crate::app::{App, Op, StepV, Then};
#[allow(unused_imports)]
use crate::images::{built_in, catalog_of, group_entry, local_entry, picker, tag_entry, ContainersConf, GroupV};
#[allow(unused_imports)]
use crate::json::{jvs, Json, JV};
#[allow(unused_imports)]
use crate::laws::asking::law_numbers_are_read_as_written;
#[allow(unused_imports)]
use crate::laws::{at_row, on_box};
#[allow(unused_imports)]
use crate::rulepane::{action_name, clause_line, rule_color, RuleAction};
#[allow(unused_imports)]
use crate::rules::{ClauseV, Join};
#[allow(unused_imports)]
use crate::start::{inside, said, settings, started, StartV};
#[allow(unused_imports)]
use crate::style::{cursor, fg, Color};
#[allow(unused_imports)]
use crate::text::{dec, has_prefix, has_suffix, padr, sdec, strs, trimmed};
#[allow(unused_imports)]
use crate::types::{snaps, FilterView, NextV, Pane, PickV};
#[allow(unused_imports)]
use crate::vars::{op_letter, origin_letter, with_refs, with_rows, NavV};

verus! {

/// Enter on a box shows its changes, on a change its diff; where it was opened from is remembered.
pub proof fn law_a_row_is_opened(a: App, b: App)
    requires
        a.open_v(b),
    ensures
        a.ui.focus == Pane::Sessions ==> b.ui.focus == Pane::Changes && b.lists.changes.rows@.len() == 0,
        a.ui.focus == Pane::Changes ==> b.ui.focus == Pane::Hunks && b.diff.sel_hunk == 0,
        a.ui.focus == Pane::Rules || a.ui.focus == Pane::Processes || a.ui.focus == Pane::Outputs ==> b == a,
{
}

/// Enter on a flow asks for the packets of its stream.
pub proof fn law_a_flow_is_opened(a: App, b: App, n: i64, stream: i64, frame: u64)
    requires
        a.ui.focus == Pane::Flows,
        on_box(a, sdec(n as int)),
        a.side.flows.sel < a.side.flows.rows@.len(),
        a.side.flows.rows@[a.side.flows.sel as int]@.get("stream"@) == Some(JV::Int(stream as int)),
        a.side.flows.rows@[a.side.flows.sel as int]@.get("frame"@) == Some(JV::Int(frame as int)),
        stream >= 0,
        a.side.packets_stream != stream || a.side.packets_sid != Some(n),
        a.open_v(b),
    ensures
        b.plan() == seq![
            StepV::Call("flows.packets"@, seq![JV::Str(sdec(n as int)), JV::Int(stream as int)], Then::Packets(frame)),
        ] + a.plan(),
        b.side.packets_stream == stream,
        b.side.packets_sid == Some(n),
{
    law_numbers_are_read_as_written(n);
    let mid = choose|mid: App| #[trigger] a.push_history_v(mid) && mid.open_packets_v(b);
    assert(mid.side == a.side && mid.boxes == a.boxes);
    assert(mid.sid() == a.sid());
    assert(mid.plan() == a.plan());
}

/// The flows of the box at the cursor are asked for, and then the one at the cursor.
pub proof fn law_the_flows_are_asked_for(a: App, b: App, n: i64)
    requires
        on_box(a, sdec(n as int)),
        a.load_flows_v(b),
    ensures
        b.plan() == seq![StepV::Call("flows.list"@, seq![JV::Str(sdec(n as int))], Then::Flows)] + a.plan(),
        b.side.flows.rows@.len() == 0,
{
    law_numbers_are_read_as_written(n);
}

/// The frame of the flow at the cursor is asked for where it is not the one that is shown.
pub proof fn law_the_frame_is_asked_for(a: App, b: App, n: i64, frame: u64)
    requires
        on_box(a, sdec(n as int)),
        a.side.flows.sel < a.side.flows.rows@.len(),
        a.side.flows.rows@[a.side.flows.sel as int]@.get("frame"@) == Some(JV::Int(frame as int)),
        frame > 0,
        a.side.flows.frame != frame,
        a.load_flow_detail_v(b),
    ensures
        b.plan() == seq![
            StepV::Call("flows.detail"@, seq![JV::Str(sdec(n as int)), JV::Int(frame as int)], Then::FlowDetail),
        ] + a.plan(),
        b.side.flows.frame == frame,
{
    law_numbers_are_read_as_written(n);
}

/// What the engine knows of the row at the cursor is asked for with the row's own number.
pub proof fn law_the_detail_is_of_the_row(a: App, sid: Seq<char>, n: i64)
    requires
        on_box(a, sid),
    ensures
        a.ui.focus == Pane::Processes && n >= 0 && at_row(a.lists.processes, "rid"@, JV::Int(n as int))
            ==> a.detail_call_v() == Some(("process_env"@, seq![JV::Str(sid), JV::Int(n as int)])),
        a.ui.focus == Pane::Pipelines && at_row(a.lists.pipelines, "id"@, JV::Int(n as int)) ==> a.detail_call_v() == Some(
            ("review.pipeline_context"@, seq![JV::Str(sid), JV::Int(n as int)]),
        ),
        a.ui.focus == Pane::ApiLogs && a.side.api.sel < a.side.api.rows@.len() && a.side.api.rows@[a.side.api.sel as int]@.get(
            "id"@,
        ) == Some(JV::Int(n as int)) ==> a.detail_call_v() == Some(
            ("api_log_detail"@, seq![JV::Str(sid), JV::Int(n as int)]),
        ),
        a.ui.focus == Pane::Network && a.side.web.sel < a.side.web.rows@.len() && a.side.web.rows@[a.side.web.sel as int]@.get(
            "id"@,
        ) == Some(JV::Int(n as int)) ==> a.detail_call_v() == Some(
            ("webcap_detail"@, seq![JV::Str(sid), JV::Int(n as int)]),
        ),
        a.ui.focus == Pane::Sessions || a.ui.focus == Pane::Changes || a.ui.focus == Pane::Rules ==> a.detail_call_v()
            is None,
{
    assert(jvs(a.lists.processes.rows@).len() == a.lists.processes.rows@.len());
}

/// The calls and the pages that a box made are asked for with the box's number.
pub proof fn law_calls_and_pages_are_of_the_box(a: App, b: App, sid: Seq<char>)
    requires
        on_box(a, sid),
    ensures
        a.api_log_rows_v(b) ==> b.plan() == seq![StepV::Call("api_log"@, seq![JV::Str(sid)], Then::ApiLog)] + a.plan(),
        a.web_call() == seq![StepV::Call("webcap"@, seq![JV::Str(sid)], Then::Webcap)],
{
}

/// The text of each output is asked for by its number, in the order of the rows.
pub proof fn law_the_text_of_every_output_is_asked_for(sid: Seq<char>, rows: Seq<JV>, k: int)
    requires
        0 <= k < rows.len(),
    ensures
        crate::answers::output_calls(sid, rows, 0).len() == rows.len(),
        crate::answers::output_calls(sid, rows, 0)[k] matches StepV::Call(verb, args, _) && verb == "output_detail"@ && args
            == seq![JV::Str(sid), JV::Int(rows[k].i64_or("id"@, -1))],
{
    lemma_output_calls(sid, rows, 0);
    let v = crate::answers::output_calls(sid, rows, 0);
    assert(v[k - 0] == v[k]);
}

proof fn lemma_output_calls(sid: Seq<char>, rows: Seq<JV>, i: int)
    requires
        0 <= i <= rows.len(),
    ensures
        crate::answers::output_calls(sid, rows, i).len() == rows.len() - i,
        forall|k: int|
            i <= k < rows.len() ==> (#[trigger] crate::answers::output_calls(sid, rows, i)[k - i] matches StepV::Call(
                verb,
                args,
                _,
            ) && verb == "output_detail"@ && args == seq![JV::Str(sid), JV::Int(rows[k].i64_or("id"@, -1))]),
    decreases rows.len() - i,
{
    if i < rows.len() {
        lemma_output_calls(sid, rows, i + 1);
        let rest = crate::answers::output_calls(sid, rows, i + 1);
        let all = crate::answers::output_calls(sid, rows, i);
        assert forall|k: int| i <= k < rows.len() implies (#[trigger] all[k - i] matches StepV::Call(verb, args, _) && verb
            == "output_detail"@ && args == seq![JV::Str(sid), JV::Int(rows[k].i64_or("id"@, -1))]) by {
            if k > i {
                assert(all[k - i] == rest[k - (i + 1)]);
            }
        }
    }
}

/// The socket is the one that is given, else that of the environment, else the usual one; with
/// `--once` one screen is drawn.
pub proof fn law_the_socket_is_the_given_one(sock: Seq<char>, env_sock: Seq<char>, usual: Seq<char>)
    requires
        sock.len() > 0,
        usual.len() > 0,
    ensures
        started(seq!["--sock"@, sock], env_sock, usual) == StartV::Interactive(sock),
        started(seq!["--once"@, "--sock"@, sock], env_sock, usual) == StartV::Once(sock),
        env_sock.len() > 0 ==> started(Seq::empty(), env_sock, usual) == StartV::Interactive(env_sock),
        env_sock.len() == 0 ==> started(Seq::empty(), env_sock, usual) == StartV::Interactive(usual),
        env_sock.len() == 0 ==> started(seq!["--once"@], env_sock, usual) == StartV::Once(usual),
        started(seq!["--help"@], env_sock, usual) == StartV::Help,
        started(seq!["-h"@], env_sock, usual) == StartV::Help,
        started(Seq::empty(), Seq::empty(), Seq::empty()) == StartV::NoSocket,
{
    reveal_strlit("--once");
    reveal_strlit("--sock");
    reveal_strlit("--help");
    reveal_strlit("-h");
    assert("--once"@[2] == 'o' && "--sock"@[2] == 's' && "--help"@[2] == 'h' && "-h"@.len() == 2);
    assert("--once"@.len() == 6 && "--sock"@.len() == 6 && "--help"@.len() == 6);
    reveal_with_fuel(said, 4);
    let a = seq!["--once"@, "--sock"@, sock];
    assert(a.skip(1) =~= seq!["--sock"@, sock]);
    assert(seq!["--sock"@, sock].skip(2) =~= Seq::<Seq<char>>::empty());
    assert(seq!["--once"@].skip(1) =~= Seq::<Seq<char>>::empty());
}

/// The settings are in the directory of the settings, else below the home; each namespace has its
/// own.
pub proof fn law_the_settings_have_their_place(conf: Seq<char>, home: Seq<char>, ns: Seq<char>)
    requires
        conf.len() > 0,
        !has_suffix(conf, "/"@),
        home.len() > 0,
        !has_suffix(home, "/"@),
        ns.len() > 0,
    ensures
        settings(None, Some(conf), Some(home)) == conf + "/"@ + "slopbox"@,
        settings(Some(ns), Some(conf), Some(home)) == conf + "/"@ + ("slopbox."@ + ns),
        settings(None, None, Some(home)) == (home + "/"@ + ".config"@) + "/"@ + "slopbox"@,
{
    reveal_strlit("/");
    reveal_strlit(".config");
    let base = home + "/"@ + ".config"@;
    assert(base.skip(base.len() - 1)[0] == 'g');
    assert("/"@[0] == '/');
    assert(!has_suffix(base, "/"@));
}

/// A loaded image is offered to be run, a reference to be fetched, and any other can be typed.
pub proof fn law_images_are_offered(conf: ContainersConf, groups: Seq<GroupV>, local: Seq<(Seq<char>, Seq<char>)>, image: Seq<char>, tag: Seq<char>)
    ensures
        tag_entry(conf, image, tag).next == NextV::Pull(image + ":"@ + tag),
        tag_entry(conf, image, tag).label == image + ":"@ + tag,
        local.len() > 0 ==> local_entry(local[0]).next == NextV::RunLocal(local[0].0),
        local.len() > 0 ==> (picker(conf, groups, local)[0].next matches NextV::Menu(v) && v.len() == local.len() && v[0]
            == local_entry(local[0])),
        picker(conf, groups, local).last().next == NextV::EnterRef(Seq::empty()),
        groups.len() > 0 && local.len() == 0 ==> picker(conf, groups, local)[0] == group_entry(conf, groups[0]),
{
}

/// A group of images offers each of its tags, and any other to be typed.
pub proof fn law_every_tag_is_offered(conf: ContainersConf, g: GroupV, i: int)
    requires
        0 <= i < g.tags.len(),
    ensures
        group_entry(conf, g).label == g.name,
        group_entry(conf, g).next matches NextV::Menu(v) && v.len() == g.tags.len() + 1 && v[i].next == NextV::Pull(
            g.image + ":"@ + g.tags[i],
        ) && v.last().next == NextV::EnterRef(g.image + ":"@),
{
}

/// The catalogue is the user's own where it names any group, else the built-in one.
pub proof fn law_the_catalogue_is_the_own_one(d: JV, a: Seq<JV>)
    requires
        d.get("group"@) == Some(JV::Arr(a)),
    ensures
        crate::images::groups_in(a).len() > 0 ==> catalog_of(Some(d)) == crate::images::groups_in(a),
        crate::images::groups_in(a).len() == 0 ==> catalog_of(Some(d)) == built_in(),
        catalog_of(None) == built_in(),
        built_in().len() == 6,
        built_in()[0].image == "ubuntu"@,
        built_in()[1].image == "debian"@,
        built_in()[2].image == "alpine"@,
{
}

/// The letter of an assignment says how the variable was set.
pub proof fn law_letters_of_the_assignments()
    ensures
        op_letter(":="@) == seq!['s'],
        op_letter("="@) == seq!['r'],
        op_letter("+="@) == seq!['a'],
        op_letter("?="@) == seq!['q'],
        op_letter("!="@) == seq!['!'],
        op_letter("sh"@) == seq!['S'],
        origin_letter("env"@) == seq!['e'],
        origin_letter("cmd"@) == seq!['c'],
        origin_letter("ovr"@) == seq!['o'],
{
    reveal_strlit(":=");
    reveal_strlit("=");
    reveal_strlit("+=");
    reveal_strlit("?=");
    reveal_strlit("!=");
    reveal_strlit("sh");
    reveal_strlit("env");
    reveal_strlit("env!");
    reveal_strlit("cmd");
    reveal_strlit("ovr");
    assert(":="@[0] == ':' && "="@[0] == '=' && "+="@[0] == '+' && "?="@[0] == '?' && "!="@[0] == '!' && "sh"@[0] == 's');
    assert("env"@.len() == 3 && "env"@[0] == 'e' && "env!"@.len() == 4 && "cmd"@[0] == 'c' && "ovr"@[0] == 'o');
}

/// The action of a rule is written in its word and its colour, and a clause as it was typed.
pub proof fn law_rules_are_shown_as_they_are(c: ClauseV, is_first: bool)
    ensures
        action_name(RuleAction::Apply) == ("APPLY"@, Color::Green),
        action_name(RuleAction::Discard) == ("DISCARD"@, Color::Red),
        action_name(RuleAction::Passthrough) == ("PASSTHROUGH"@, Color::Cyan),
        action_name(RuleAction::Ask) == ("ASK"@, Color::Yellow),
        clause_line(c, is_first).spans.len() == 2,
        clause_line(c, is_first).spans[1].text == c.kind + ":"@ + c.pattern,
        clause_line(c, is_first).spans[0].text == "  "@ + (if is_first {
            ""@
        } else if c.join == Join::Or {
            "or "@
        } else {
            "and "@
        }) + (if c.enabled { ""@ } else { "off "@ }) + (if c.negate { "not "@ } else { ""@ }),
{
}

/// The rules are shown in their order, one row for each, as they are written.
pub proof fn law_every_rule_has_a_row(a: App, i: int)
    requires
        0 <= i < a.side.rules@.len(),
    ensures
        a.rules_pane().len() == 1 + a.side.rules@.len(),
        a.rules_pane()[1 + i].spans.len() == 1,
        a.rules_pane()[1 + i].spans[0].text == a.side.rules@[i]@,
        i == a.side.sel_rule ==> a.rules_pane()[1 + i].spans[0].style == cursor(),
        i != a.side.sel_rule ==> a.rules_pane()[1 + i].spans[0].style == fg(rule_color(a.side.rules@[i]@)),
{
    assert(strs(a.side.rules@).len() == a.side.rules@.len());
}

/// The status line shows the question of the engine before all else, then the name that is typed,
/// then what was said last.
pub proof fn law_the_status_line(a: App)
    ensures
        a.status_line().spans.len() == 1,
        a.jobs.prompt is None && a.ui.renaming is None ==> a.status_line().spans[0].text == a.ui.status@,
        a.jobs.prompt is None && a.ui.renaming is Some ==> a.status_line().spans[0].text == "rename -> "@
            + a.ui.renaming->0@ + "_  (Enter to commit, Esc to cancel)"@,
        a.jobs.prompt matches Some(p) ==> a.status_line().spans[0].text == "["@ + p@.str_or("box"@, ""@)
            + "] connection: "@ + p@.str_or("scheme"@, ""@) + "://"@ + p@.str_or("host"@, ""@) + ":"@ + dec(
            p@.u64_or("port"@, 0),
        ) + "  [y]es once  [n]o once  [a]llow+save  [d]eny+save"@,
{
}

/// The command line shows the filter of the list where it has one.
pub proof fn law_the_filter_is_shown(a: App, v: FilterView)
    requires
        crate::laws::going::shows(a.ui.focus, v),
    ensures
        a.filter(v).on && a.filter(v)@.clauses.len() > 0 ==> a.cmdline_line().spans.len() == 4
            && a.cmdline_line().spans[2].text == crate::types::expr_of(a.filter(v)@.clauses),
        !a.filter(v).on ==> a.cmdline_line().spans.len() == 2,
{
}

/// A filter is written as it was typed: each clause with its kind and its pattern, negated ones
/// with a word before them.
pub proof fn law_a_filter_is_written_as_it_is(c: ClauseV, d: ClauseV)
    requires
        c.enabled,
        d.enabled,
    ensures
        !c.negate ==> crate::types::expr_of(seq![c]) == Seq::<char>::empty() + (Seq::<char>::empty() + Seq::<char>::empty()
            + c.kind + ":"@ + c.pattern),
        c.negate ==> crate::types::expr_of(seq![c]) == Seq::<char>::empty() + (Seq::<char>::empty() + "not "@ + c.kind
            + ":"@ + c.pattern),
        !d.negate && d.join == Join::Or ==> crate::types::expr_of(seq![c, d]) == crate::types::expr_of(seq![c]) + (" "@
            + "or"@ + " "@ + Seq::<char>::empty() + d.kind + ":"@ + d.pattern),
        !d.negate && d.join == Join::And ==> crate::types::expr_of(seq![c, d]) == crate::types::expr_of(seq![c]) + (" "@
            + "and"@ + " "@ + Seq::<char>::empty() + d.kind + ":"@ + d.pattern),
{
    reveal_with_fuel(crate::types::expr_of, 3);
    assert(seq![c].drop_last() =~= Seq::<ClauseV>::empty());
    assert(seq![c, d].drop_last() =~= seq![c]);
}

/// Each pane shows its own list, and the line of the row at the cursor is known.
pub proof fn law_lists_have_their_titles(a: App, width: int, now: crate::num::NumV)
    ensures
        a.ui.focus == Pane::Sessions ==> a.list_view(width, now).text == a.sessions_pane(width, now),
        a.ui.focus == Pane::Processes ==> a.list_view(width, now).text == a.processes_pane() && a.list_view(
            width,
            now,
        ).title == "PROCESSES"@,
        a.ui.focus == Pane::Outputs ==> a.list_view(width, now).text == a.outputs_index_pane() && a.list_view(
            width,
            now,
        ).title == "OUTPUTS"@,
        a.ui.focus == Pane::Changes || a.ui.focus == Pane::Hunks ==> a.list_view(width, now).text == a.changes_pane(width)
            && a.list_view(width, now).title == "changes"@,
        a.ui.focus == Pane::Pipelines ==> a.list_view(width, now).text == a.pipelines_pane(width),
        a.ui.focus == Pane::BuildEdges ==> a.list_view(width, now).text == a.edges_pane(width),
        a.ui.focus == Pane::Rules ==> a.list_view(width, now).text == a.rules_pane(),
        a.ui.focus == Pane::Flows ==> a.list_view(width, now).text == a.flows_pane(),
        a.ui.focus == Pane::Packets ==> a.list_view(width, now).text == a.packets_pane(),
        a.ui.focus == Pane::ApiLogs ==> a.list_view(width, now).text == a.api_pane(),
        a.ui.focus == Pane::Network ==> a.list_view(width, now).text == a.web_pane(),
        a.ui.focus == Pane::Sessions && a.boxes.sel < usize::MAX ==> a.list_view(width, now).at == a.boxes.sel + 1,
{
}

/// The labels of the function keys say what they do.
pub proof fn law_function_keys_are_labelled(a: App)
    ensures
        a.fkeys().len() == 11,
        a.ui.focus == Pane::Hunks || a.ui.focus == Pane::Changes ==> a.fkeys()[4] == "Apply"@ && a.fkeys()[7] == "Discard"@,
        a.ui.focus == Pane::Sessions ==> a.fkeys()[5] == "Rename"@ && a.fkeys()[6] == "Image+"@ && a.fkeys()[7] == "Delete"@,
        a.ui.focus == Pane::Rules ==> a.fkeys()[6] == "NewRule"@ && a.fkeys()[7] == "DelRule"@,
        a.ui.focus == Pane::Pty ==> a.fkeys()[1] == "PtyNext"@ && a.fkeys()[2] == "PtyPrev"@ && a.fkeys()[7] == "PtyKill"@,
        a.fkeys()[0] == "Help"@,
        a.fkeys()[9] == "Quit"@,
{
}

/// An image that was asked for is fetched, and what came of it is told.
pub proof fn law_an_image_is_fetched(a: App, b: App, reference: Seq<char>)
    requires
        a.jobs.load is None,
        a.start_image_load_v(reference, b),
    ensures
        b.plan() == seq![StepV::LoadImage(reference)] + a.plan(),
        b.jobs.load matches Some(l) && l.label@ == reference,
{
}

/// Once an image is there the boxes are loaded again; a failure is told.
pub proof fn law_a_fetched_image_is_told(a: App, b: App, r: Result<JV, Seq<char>>)
    requires
        a.jobs.load is Some,
        a.image_loaded_v(r, b),
    ensures
        b.jobs.load is None,
        r is Ok ==> b.plan() == seq![StepV::Op(Op::RefreshSessions)] + a.plan(),
        r matches Err(e) ==> b.plan() == a.plan() && b.ui.status@ == "oci load '"@ + a.jobs.load->0.label@ + "': "@ + e,
{
}

/// A query for variables goes to the engine as it was typed: one word for names and values, two for
/// a name and a value.
pub proof fn law_variables_are_asked_for(a: App, b: App, sid: Seq<char>)
    requires
        on_box(a, sid),
        a.side.vars.query.0@.len() > 0,
        a.load_vars_v(b),
    ensures
        b.side.vars.rows@.len() == 0,
        b.plan() == seq![
            StepV::Call(
                "review.makevars"@,
                seq![
                    JV::Str(sid),
                    JV::Str(a.side.vars.query.0@),
                    JV::Str(a.side.vars.query.1@),
                    JV::Int(800),
                    JV::Bool(a.side.vars.any),
                ],
                Then::Vars,
            ),
        ] + a.plan(),
{
}

/// A query of one word looks for it in names and in values, one of two words for a name and a value.
pub proof fn law_a_query_is_read_word_by_word(buf: Seq<char>)
    ensures
        ({
            let ws = crate::text::words(buf);
            let q = crate::modals::typed_query(buf);
            &&& ws.len() == 1 && ws[0].len() > 0 ==> q == (ws[0], ws[0], true)
            &&& ws.len() >= 2 && ws[0].len() > 0 && ws[1].len() > 0 ==> q == (ws[0], ws[1], false)
        }),
{
}

/// Going to a pane loads its list where it is of another box, and goes there by the row at the
/// cursor; where it was gone from is remembered.
pub proof fn law_going_to_a_list_loads_it(a: App, b: App, p: Pane, v: FilterView)
    requires
        a.ui.focus == Pane::Sessions,
        !a.shown.err_only,
        a.ui.nav_history@.len() < 32,
        crate::laws::going::shows(p, v),
        a.go_to_pane_v(p, b),
    ensures
        b.ui.focus == p,
        b.plan() == seq![StepV::Op(Op::LoadIfNeeded(v))] + a.plan(),
        snaps(b.ui.nav_history@).len() == a.ui.nav_history@.len() + 1,
        snaps(b.ui.nav_history@).last().pane == Pane::Sessions,
        !b.ui.right_focused,
{
    let mid = choose|mid: App| #[trigger] mid.snapped().arrive_v(p, b) && a.push_history_v(mid);
    assert(snaps(a.ui.nav_history@).len() == a.ui.nav_history@.len());
    assert(mid.plan() == a.plan());
    assert(mid.snapped().plan() == a.plan());
}

/// The styles are what they are called.
pub proof fn law_styles_are_what_they_are_called(c: Color)
    ensures
        fg(c).fg == Some(c) && !fg(c).bold && !fg(c).reversed && fg(c).bg is None,
        crate::style::fg_bold(c).fg == Some(c) && crate::style::fg_bold(c).bold,
        crate::style::bold().bold && crate::style::bold().fg is None,
        crate::style::dim().dim && !crate::style::dim().bold,
        crate::style::plain().fg is None && crate::style::plain().bg is None && !crate::style::plain().bold,
        cursor().fg == Some(Color::Black) && cursor().bg == Some(Color::Cyan),
        crate::style::fg_bg(c, Color::Red).fg == Some(c) && crate::style::fg_bg(c, Color::Red).bg == Some(Color::Red),
        crate::style::fg_reversed(c).reversed,
{
}

/// What happened last in the box at the cursor is asked for.
pub proof fn law_what_happened_last_is_asked_for(a: App, b: App, sid: Seq<char>)
    requires
        on_box(a, sid),
        a.recent_v(b),
    ensures
        b.boxes.summary@ == JV::Null,
        b.plan() == seq![
            StepV::Call("review.box_summary"@, seq![JV::Str(sid), JV::Int(40)], Then::Summary),
        ] + a.plan(),
{
}

/// A place of the detail leads to a row of the list with that name, or to a query.
pub open spec fn leads_to(rows: Seq<JV>, name: Seq<char>, n: NavV) -> bool {
    n matches NavV::Jump(i) ==> 0 <= i < rows.len() && rows[i].get("name"@) == Some(JV::Str(name))
}

proof fn lemma_refs(d: crate::vars::DetailV, names: Seq<Seq<char>>, focused: bool, item: int)
    ensures
        with_refs(d, names, focused, item).items.len() == d.items.len() + names.len(),
        forall|k: int|
            0 <= k < d.items.len() ==> #[trigger] with_refs(d, names, focused, item).items[k] == d.items[k],
        forall|k: int|
            0 <= k < names.len() ==> (#[trigger] with_refs(d, names, focused, item).items[d.items.len() + k]).1
                == NavV::Query(names[k]),
    decreases names.len(),
{
    if names.len() > 0 {
        lemma_refs(d, names.drop_last(), focused, item);
        let p = with_refs(d, names.drop_last(), focused, item);
        let all = with_refs(d, names, focused, item);
        assert forall|k: int| 0 <= k < names.len() implies (#[trigger] all.items[d.items.len() + k]).1 == NavV::Query(
            names[k],
        ) by {
            if k < names.len() - 1 {
                assert(all.items[d.items.len() + k] == p.items[d.items.len() + k]);
                assert(names.drop_last()[k] == names[k]);
            }
        }
    }
}

proof fn lemma_jumps(d: crate::vars::DetailV, rows: Seq<JV>, k: int, name: Seq<char>, sel: int, focused: bool, item: int)
    requires
        0 <= k <= rows.len(),
        forall|i: int| 0 <= i < d.items.len() ==> leads_to(rows, name, (#[trigger] d.items[i]).1),
    ensures
        forall|i: int|
            0 <= i < with_rows(d, rows, k, name, sel, focused, item).items.len() ==> leads_to(
                rows,
                name,
                (#[trigger] with_rows(d, rows, k, name, sel, focused, item).items[i]).1,
            ),
    decreases k,
{
    if k > 0 {
        lemma_jumps(d, rows, k - 1, name, sel, focused, item);
        let p = with_rows(d, rows, k - 1, name, sel, focused, item);
        let all = with_rows(d, rows, k, name, sel, focused, item);
        let r = rows[k - 1];
        if r.get_str("name"@) == Some(name) {
            assert(r.get("name"@) == Some(JV::Str(name)));
            assert(all.items == p.items.push((p.lines.len() as int, NavV::Jump(k - 1))));
        } else {
            assert(all == p);
        }
        assert forall|i: int| 0 <= i < all.items.len() implies leads_to(rows, name, (#[trigger] all.items[i]).1) by {
            if i < p.items.len() {
                assert(all.items[i] == p.items[i]);
            }
        }
    }
}

/// The places of the detail of a variable lead to the rows that set it, and to queries for the
/// variables that its value is made of.
pub proof fn law_places_lead_to_the_variable(a: App, name: Seq<char>, i: int)
    requires
        a.side.vars.sel < a.side.vars.rows@.len(),
        a.side.vars.rows@[a.side.vars.sel as int]@.get("name"@) == Some(JV::Str(name)),
        0 <= i < a.var_detail_v().items.len(),
    ensures
        leads_to(jvs(a.side.vars.rows@), name, a.var_detail_v().items[i].1),
{
    let rows = jvs(a.side.vars.rows@);
    let sel = a.side.vars.sel as int;
    let row = rows[sel];
    let focused = a.ui.right_focused;
    let item = a.side.vars.item as int;
    let head = crate::vars::DetailV { lines: crate::vars::var_head(row), items: Seq::empty() };
    let d = crate::vars::with_rhs(head, row, focused, item);
    let names = crate::vars::others(crate::text::words(row.str_or("refs"@, ""@)), row.str_or("name"@, ""@));
    let rhs = row.str_or("rhs"@, ""@);
    assert forall|k: int| 0 <= k < d.items.len() implies leads_to(rows, name, (#[trigger] d.items[k]).1) by {
        if rhs.len() > 0 && names.len() > 0 {
            let written = crate::vars::DetailV {
                lines: head.lines + seq![
                    crate::style::raw_line(""@),
                    crate::style::styled_line(" assignment (as written) "@, crate::vars::heading()),
                ] + crate::text::lines(rhs).map_values(
                    |l: Seq<char>| crate::style::styled_line(l, crate::vars::body()),
                ),
                ..head
            };
            let before = crate::vars::DetailV {
                lines: written.lines.push(
                    crate::style::styled_line(
                        "dereferences (Tab then ↑/↓ + Enter to follow)"@,
                        crate::style::dim(),
                    ),
                ),
                ..written
            };
            lemma_refs(before, names, focused, item);
            assert(d == with_refs(before, names, focused, item));
            assert(d.items[before.items.len() + k].1 == NavV::Query(names[k]));
        }
    }
    let e = crate::vars::with_history_head(crate::vars::with_value(d, row), name);
    assert(e.items == d.items);
    lemma_jumps(e, rows, rows.len() as int, name, sel, focused, item);
}

/// Following a place goes to its row, or asks for its variable.
pub proof fn law_places_are_followed(a: App, b: App, i: int)
    requires
        0 <= i < a.var_detail_v().items.len(),
        a.side.vars.item == i,
        a.var_item_act_v(b),
    ensures
        a.var_detail_v().items[i].1 matches NavV::Jump(k) ==> (0 <= k <= usize::MAX ==> b.side.vars.sel == k
            && b.side.vars.rows == a.side.vars.rows && b.todo == a.todo),
        a.var_detail_v().items[i].1 matches NavV::Query(name) ==> b.side.vars.query.0@ == name && b.side.vars.any,
{
}

} // verus!
