//! What is asked of the engine for a list or a row, and what its answers and its news change.

use vstd::prelude::*;

#[allow(unused_imports)]
use crate::app::{digits_value, parse_int, App, Op, StepV, Then};
#[allow(unused_imports)]
use crate::json::{jvs, Json, JV};
#[allow(unused_imports)]
use crate::keys::{KeyCode, Mods};
#[allow(unused_imports)]
use crate::laws::filtering::{law_a_filter_is_sent_clause_by_clause, tells};
#[allow(unused_imports)]
use crate::laws::{at_row, on_box, only_plans};
#[allow(unused_imports)]
use crate::lists::{list_name, rep_v, reply_v};
#[allow(unused_imports)]
use crate::plan::{rename_v, request_v};
#[allow(unused_imports)]
use crate::text::{dec, digit, sdec};
#[allow(unused_imports)]
use crate::types::{FilterView, Pane};

verus! {

/// To a question of the engine, `y` allows and `n` denies once, `a` allows and `d` denies for good;
/// the answer is for the question that is shown.
pub proof fn law_a_question_is_answered(a: App, b: App, id: u64, k: char, mods: Mods, now: u64)
    requires
        a.ui.modal is None,
        !a.ui.menu_nav,
        a.ui.renaming is None,
        a.ui.focus != Pane::Pty,
        !a.terms.in_right,
        a.jobs.prompt matches Some(p) && p@.get("id"@) == Some(JV::Int(id as int)),
        a.key_v(KeyCode::Char(k), mods, now, b),
    ensures
        k == 'y' ==> b.plan().len() > a.plan().len() && b.plan()[0] == StepV::Call(
            "prompts.answer"@,
            seq![JV::Int(id as int), JV::Str("yes_once"@)],
            Then::Ignore,
        ),
        k == 'n' ==> b.plan().len() > a.plan().len() && b.plan()[0] == StepV::Call(
            "prompts.answer"@,
            seq![JV::Int(id as int), JV::Str("no_once"@)],
            Then::Ignore,
        ),
        k == 'a' ==> b.plan().len() > a.plan().len() && b.plan()[0] == StepV::Call(
            "prompts.answer"@,
            seq![JV::Int(id as int), JV::Str("allow_save"@)],
            Then::Ignore,
        ),
        k == 'd' ==> b.plan().len() > a.plan().len() && b.plan()[0] == StepV::Call(
            "prompts.answer"@,
            seq![JV::Int(id as int), JV::Str("deny_save"@)],
            Then::Ignore,
        ),
        k == 'y' || k == 'n' || k == 'a' || k == 'd' ==> b.jobs.prompt is None && b.boxes == a.boxes && b.lists
            == a.lists,
{
}

/// A question that the engine asks is shown until it says that there is none.
pub proof fn law_a_question_is_shown(a: App, b: App, j: Json)
    requires
        a.answer_v(Then::Prompt, Ok(j), b),
    ensures
        j@.get("ok"@) == Some(JV::Bool(true)) && j@.get("ask"@) == Some(JV::Null) ==> b.jobs.prompt is None,
        j@.get("ok"@) == Some(JV::Bool(true)) && j@.get("ask"@) is None ==> b.jobs.prompt is None,
        j@.get("ok"@) == Some(JV::Bool(true)) && j@.get("ask"@) is Some && j@.get("ask"@) != Some(JV::Null)
            ==> b.jobs.prompt is Some && j@.get("ask"@) == Some(b.jobs.prompt->0@),
        b.todo == a.todo,
{
}

proof fn lemma_digits(n: int)
    requires
        n >= 0,
    ensures
        dec(n).len() > 0,
        digits_value(dec(n)) == Some(n),
        '0' <= dec(n)[0] <= '9',
    decreases n,
{
    reveal_with_fuel(digits_value, 3);
    if n < 10 {
        assert(dec(n) =~= seq![digit(n)]);
        assert(dec(n).drop_last() =~= Seq::<char>::empty());
        assert(digit(n) as u32 - 48 == n);
    } else {
        lemma_digits(n / 10);
        assert(dec(n).drop_last() =~= dec(n / 10));
        assert(digit(n % 10) as u32 - 48 == n % 10);
        assert(dec(n)[0] == dec(n / 10)[0]);
    }
}

/// A number that is written is read as that number.
pub proof fn law_numbers_are_read_as_written(n: i64)
    ensures
        parse_int(sdec(n as int)) == Some(n as int),
{
    lemma_digits(if n < 0 { -(n as int) } else { n as int });
    let s = sdec(n as int);
    if n < 0 {
        assert(s.drop_first() =~= dec(-(n as int)));
    }
}

/// The name of a list for the engine.
pub proof fn law_lists_have_their_names()
    ensures
        list_name(FilterView::Changes) == "changes"@,
        list_name(FilterView::Procs) == "procs"@,
        list_name(FilterView::Outputs) == "outputs"@,
        list_name(FilterView::Pipelines) == "pipelines"@,
        list_name(FilterView::BuildEdges) == "build_edges"@,
{
}

/// A list is opened for the box at the cursor, with the filter that it has; of the processes it is
/// said whether only those that run are wanted. What was open of it is closed.
pub proof fn law_a_list_is_opened_for_its_box(a: App, b: App, v: FilterView, n: i64)
    requires
        on_box(a, sdec(n as int)),
        a.diff.structd.job is None,
        a.load_v(v, b),
    ensures
        b.win(v).rows@.len() == 0,
        a.win(v).view matches Some(id) ==> b.plan()[0] == StepV::Call("view.close"@, seq![JV::Int(id as int)], Then::Ignore),
        ({
            let k = if a.win(v).view is Some { 1int } else { 0 };
            &&& b.plan().len() == a.plan().len() + k + 1
            &&& b.plan()[k] matches StepV::Call(verb, args, then) && {
                &&& verb == "view.open"@
                &&& then == Then::Opened(v, n)
                &&& args.len() >= 3
                &&& args[0] == JV::Str(
                    match v {
                        FilterView::Changes => "changes"@,
                        FilterView::Procs => "procs"@,
                        FilterView::Outputs => "outputs"@,
                        FilterView::Pipelines => "pipelines"@,
                        FilterView::BuildEdges => "build_edges"@,
                    },
                )
                &&& args[1] == JV::Int(n as int)
                &&& !a.filter(v).on ==> args[2] == JV::Null
                &&& a.filter(v).on && a.filter(v)@.clauses.len() > 0 ==> {
                    &&& args[2] matches JV::Arr(items) && items.len() == a.filter(v)@.clauses.len() && forall|i: int|
                        0 <= i < items.len() ==> tells(#[trigger] items[i], a.filter(v)@.clauses[i])
                }
                &&& v == FilterView::Procs ==> args.len() == 4 && args[3] == JV::Bool(a.shown.proc_running_only)
                &&& v != FilterView::Procs ==> args.len() == 3
            }
        }),
{
    law_numbers_are_read_as_written(n);
    law_a_filter_is_sent_clause_by_clause(a.filter(v)@.clauses);
}

/// A list is loaded where what is there is of another box, and else left as it is.
pub proof fn law_a_list_is_loaded_once_for_a_box(a: App, b: App, v: FilterView, n: i64)
    requires
        on_box(a, sdec(n as int)),
        a.load_list_if_needed_v(v, b),
    ensures
        a.win(v).sid == Some(n) ==> b == a,
        a.win(v).sid != Some(n) ==> a.load_v(v, b),
{
    law_numbers_are_read_as_written(n);
}

/// The engine's number for a list that was opened is kept with it, and its size.
pub proof fn law_an_opened_list_is_known_by_its_number(a: App, b: App, v: FilterView, n: i64, j: Json, id: u64, total: u64)
    requires
        j@.get("view_id"@) == Some(JV::Int(id as int)),
        j@.get("total"@) == Some(JV::Int(total as int)),
        total <= usize::MAX,
        a.answer_v(Then::Opened(v, n), Ok(j), b),
    ensures
        b.win(v).view == Some(id),
        b.win(v).total == total,
        b.win(v).sid == Some(n),
        b.plan().len() > a.plan().len(),
        b.plan()[0] matches StepV::Op(Op::Fetch(u, _)) && u == v,
{
}

/// Rows are asked for of the list that is open, from a row that it has.
pub proof fn law_rows_are_asked_for(a: App, b: App, v: FilterView, start: usize, id: u64)
    requires
        a.win(v).view == Some(id),
        a.fetch_window_v(v, start, b),
    ensures
        only_plans(a, b),
        b.plan().len() == a.plan().len() + 1,
        b.plan()[0] matches StepV::Call(verb, args, then) && {
            &&& verb == "view.window"@
            &&& args.len() == 3
            &&& args[0] == JV::Int(id as int)
            &&& args[1] matches JV::Int(at) && {
                &&& 0 <= at <= start
                &&& start < a.win(v).total ==> at == start
                &&& a.win(v).total > 0 ==> at < a.win(v).total
            }
            &&& args[2] == JV::Int(400)
            &&& then matches Then::Window(u, _) && u == v
        },
{
}

/// The rows that the engine sends are the rows of the list that they were asked for; no other list
/// changes.
pub proof fn law_rows_go_to_their_list(a: App, b: App, start: usize, j: Json, rows: Seq<JV>, first: u64)
    requires
        j@.get("rows"@) == Some(JV::Arr(rows)),
        j@.get("start"@) == Some(JV::Int(first as int)),
        first <= usize::MAX,
    ensures
        a.answer_v(Then::Window(FilterView::Changes, start), Ok(j), b) ==> {
            &&& jvs(b.lists.changes.rows@) == rows
            &&& b.lists.changes.start == first
            &&& b.lists.changes.view == a.lists.changes.view
            &&& b.lists.processes == a.lists.processes && b.lists.outputs == a.lists.outputs
            &&& b.lists.pipelines == a.lists.pipelines && b.lists.edges == a.lists.edges
        },
        a.answer_v(Then::Window(FilterView::Procs, start), Ok(j), b) ==> {
            &&& jvs(b.lists.processes.rows@) == rows
            &&& b.lists.processes.start == first
            &&& b.lists.changes == a.lists.changes && b.lists.outputs == a.lists.outputs
            &&& b.lists.pipelines == a.lists.pipelines && b.lists.edges == a.lists.edges
        },
        a.answer_v(Then::Window(FilterView::Outputs, start), Ok(j), b) ==> {
            &&& jvs(b.lists.outputs.rows@) == rows
            &&& b.lists.outputs.start == first
            &&& b.lists.changes == a.lists.changes && b.lists.processes == a.lists.processes
            &&& b.lists.pipelines == a.lists.pipelines && b.lists.edges == a.lists.edges
        },
        a.answer_v(Then::Window(FilterView::Pipelines, start), Ok(j), b) ==> {
            &&& jvs(b.shown.pipelines_flat@) == rows
            &&& !a.shown.pipe_tree && !a.shown.pipe_running_only ==> jvs(b.lists.pipelines.rows@) == rows
            &&& b.lists.pipelines.start == first
            &&& b.lists.changes == a.lists.changes && b.lists.processes == a.lists.processes
            &&& b.lists.outputs == a.lists.outputs && b.lists.edges == a.lists.edges
        },
        a.answer_v(Then::Window(FilterView::BuildEdges, start), Ok(j), b) ==> {
            &&& jvs(b.shown.edges_flat@) == rows
            &&& !a.shown.edges_running_only ==> jvs(b.lists.edges.rows@) == rows
            &&& b.lists.edges.start == first
            &&& b.lists.changes == a.lists.changes && b.lists.processes == a.lists.processes
            &&& b.lists.outputs == a.lists.outputs && b.lists.pipelines == a.lists.pipelines
        },
{
}

/// A list whose filter was changed is shown from its first row on, with the size that the engine
/// tells.
pub proof fn law_a_filtered_list_begins_at_its_first_row(a: App, b: App, v: FilterView, j: Json, total: u64)
    requires
        j@.get("total"@) == Some(JV::Int(total as int)),
        total <= usize::MAX,
        a.answer_v(Then::Filtered(v), Ok(j), b),
    ensures
        b.win(v).total == total,
        b.win(v).start == 0,
        b.win(v).sel == 0,
        b.plan() == seq![StepV::Op(Op::Fetch(v, 0))] + a.plan(),
{
}

/// The diff of the change at the cursor is asked for, with its kind and its mode.
pub proof fn law_the_diff_of_the_change_is_asked_for(a: App, b: App, sid: Seq<char>, path: Seq<char>)
    requires
        on_box(a, sid),
        at_row(a.lists.changes, "path"@, JV::Str(path)),
        a.diff.structd.job is None,
        a.load_hunks_v(b),
    ensures
        b.diff.sel_hunk == 0,
        b.diff.hunks@ == JV::Null,
        b.plan() == seq![
            StepV::Call("review.decorate"@, seq![JV::Str(sid), JV::Str(path)], Then::HeaderKind),
            StepV::Call("review.change_mode"@, seq![JV::Str(sid), JV::Str(path)], Then::HeaderMode(false)),
            StepV::Call("review.hunks"@, seq![JV::Str(sid), JV::Str(path)], Then::Hunks),
        ] + a.plan(),
{
    assert(b.plan() =~= seq![
        StepV::Call("review.decorate"@, seq![JV::Str(sid), JV::Str(path)], Then::HeaderKind),
        StepV::Call("review.change_mode"@, seq![JV::Str(sid), JV::Str(path)], Then::HeaderMode(false)),
        StepV::Call("review.hunks"@, seq![JV::Str(sid), JV::Str(path)], Then::Hunks),
    ] + a.plan());
}

/// The diff that the engine sends is the one that is shown; of one that is no text, a structural
/// diff is asked for.
pub proof fn law_the_diff_is_shown(a: App, b: App, j: Json, sid: Seq<char>, path: Seq<char>)
    requires
        on_box(a, sid),
        at_row(a.lists.changes, "path"@, JV::Str(path)),
        a.answer_v(Then::Hunks, Ok(j), b),
    ensures
        b.diff.hunks@ == j@,
        b.lists == a.lists,
        j@.get("is_text"@) == Some(JV::Bool(true)) ==> b.plan() == a.plan(),
        j@.get("is_text"@) != Some(JV::Bool(true)) ==> b.plan().len() == a.plan().len() + 3 && b.plan()[2] == StepV::Call(
            "struct_quick"@,
            seq![JV::Str(sid), JV::Str(path)],
            Then::StructQuick,
        ),
{
    assert(Seq::<StepV>::empty() + a.plan() =~= a.plan());
}

/// The boxes and the images are asked for, and the boxes that the engine tells of are all shown.
pub proof fn law_the_boxes_are_asked_for(a: App, b: App)
    requires
        a.refresh_sessions_v(b),
    ensures
        b.plan() == seq![
            StepV::Call("session_dicts"@, Seq::empty(), Then::Sessions),
            StepV::Call("oci.images"@, Seq::empty(), Then::Images),
        ] + a.plan(),
{
}

/// All boxes that the engine tells of are shown, and no other.
pub proof fn law_every_box_is_shown(a: App, b: App, j: Json, rows: Seq<JV>)
    requires
        j@ == JV::Arr(rows),
        a.answer_v(Then::Sessions, Ok(j), b),
    ensures
        jvs(b.boxes.sessions@).to_multiset() == rows.to_multiset(),
        rows.len() > 0 ==> b.boxes.sel < b.boxes.sessions@.len(),
        b.todo == a.todo,
{
    crate::boxes::law_boxes_are_sorted(rows);
    assert(jvs(b.boxes.sessions@).to_multiset() =~= rows.to_multiset());
    rows.to_multiset_ensures();
    jvs(b.boxes.sessions@).to_multiset_ensures();
    assert(jvs(b.boxes.sessions@).len() == rows.len());
    assert(jvs(b.boxes.sessions@).len() == b.boxes.sessions@.len());
}

/// What the engine says to a call: its answer where it says yes, else its error.
pub proof fn law_a_refused_call_is_an_error(rep: JV, fallback: Seq<char>)
    ensures
        rep.get("ok"@) == Some(JV::Bool(true)) && rep.get("r"@) is Some ==> reply_v(rep, fallback) == Ok::<JV, Seq<char>>(
            rep.get("r"@)->0,
        ),
        rep.get("ok"@) != Some(JV::Bool(true)) ==> reply_v(rep, fallback) is Err,
        rep.get("ok"@) != Some(JV::Bool(true)) && rep.get("error"@) is Some ==> (rep.get("error"@)->0 matches JV::Str(e)
            ==> reply_v(rep, fallback) == Err::<JV, Seq<char>>(e)),
        rep.get("ok"@) != Some(JV::Bool(true)) && rep.get("error"@) is None ==> reply_v(rep, fallback) == Err::<
            JV,
            Seq<char>,
        >(fallback),
{
}

/// A call is sent with its verb and its arguments.
pub proof fn law_a_call_is_sent_as_it_is(verb: Seq<char>, args: Seq<JV>)
    ensures
        request_v(verb, args).get("type"@) == Some(JV::Str("ui"@)),
        request_v(verb, args).get("verb"@) == Some(JV::Str(verb)),
        request_v(verb, args).get("args"@) == Some(JV::Arr(args)),
{
    reveal_strlit("type");
    reveal_strlit("verb");
    reveal_strlit("args");
    assert("type"@[0] == 't' && "verb"@[0] == 'v' && "args"@[0] == 'a');
    reveal_with_fuel(crate::json::lookup, 4);
    let e = request_v(verb, args)->Obj_0;
    assert(e.drop_first()[0] == e[1]);
    assert(e.drop_first().drop_first()[0] == e[2]);
}

/// A new name is sent with the box that it is for.
pub proof fn law_a_new_name_is_sent_as_it_is(sid: Seq<char>, name: Seq<char>)
    ensures
        rename_v(sid, name).get("type"@) == Some(JV::Str("rename"@)),
        rename_v(sid, name).get("sid"@) == Some(JV::Str(sid)),
        rename_v(sid, name).get("name"@) == Some(JV::Str(name)),
{
    reveal_strlit("type");
    reveal_strlit("sid");
    reveal_strlit("name");
    assert("type"@[0] == 't' && "sid"@[0] == 's' && "name"@[0] == 'n');
    reveal_with_fuel(crate::json::lookup, 4);
    let e = rename_v(sid, name)->Obj_0;
    assert(e.drop_first()[0] == e[1]);
    assert(e.drop_first().drop_first()[0] == e[2]);
}

proof fn lemma_event_names()
    ensures
        "overlay"@ != "session_added"@ && "overlay"@ != "session_removed"@ && "overlay"@ != "session_renamed"@,
        "process_added"@ != "session_added"@ && "process_added"@ != "session_removed"@ && "process_added"@
            != "session_renamed"@ && "process_added"@ != "overlay"@,
        "brush_prov"@ != "session_added"@ && "brush_prov"@ != "session_removed"@ && "brush_prov"@ != "session_renamed"@
            && "brush_prov"@ != "overlay"@ && "brush_prov"@ != "process_added"@,
        "build_edges"@ != "session_added"@ && "build_edges"@ != "session_removed"@ && "build_edges"@
            != "session_renamed"@ && "build_edges"@ != "overlay"@ && "build_edges"@ != "process_added"@ && "build_edges"@
            != "brush_prov"@,
{
    reveal_strlit("overlay");
    reveal_strlit("session_added");
    reveal_strlit("session_removed");
    reveal_strlit("session_renamed");
    reveal_strlit("process_added");
    reveal_strlit("brush_prov");
    reveal_strlit("build_edges");
    assert("overlay"@[0] == 'o');
    assert("session_added"@[0] == 's' && "session_removed"@[0] == 's' && "session_renamed"@[0] == 's');
    assert("process_added"@[0] == 'p');
    assert("brush_prov"@[0] == 'b' && "brush_prov"@[1] == 'r');
    assert("build_edges"@[0] == 'b' && "build_edges"@[1] == 'u');
}

/// News of the box at the cursor loads the list that is shown again where the news are of it.
pub proof fn law_news_refresh_what_they_are_of(a: App, b: App, ev: JV, sid: Seq<char>)
    requires
        on_box(a, sid),
        ev.get("sid"@) == Some(JV::Str(sid)),
        ev.get("session_id"@) == Some(JV::Str(sid)),
        a.event_v(ev, b),
    ensures
        ev.get("type"@) == Some(JV::Str("overlay"@)) && a.ui.focus == Pane::Changes ==> a.refresh_v(
            FilterView::Changes,
            b,
        ),
        ev.get("type"@) == Some(JV::Str("overlay"@)) && a.ui.focus == Pane::Outputs ==> a.refresh_v(
            FilterView::Outputs,
            b,
        ),
        ev.get("type"@) == Some(JV::Str("process_added"@)) && a.ui.focus == Pane::Processes ==> a.refresh_v(
            FilterView::Procs,
            b,
        ),
        ev.get("type"@) == Some(JV::Str("brush_prov"@)) && a.ui.focus == Pane::Pipelines ==> a.refresh_v(
            FilterView::Pipelines,
            b,
        ),
        ev.get("type"@) == Some(JV::Str("build_edges"@)) && a.ui.focus == Pane::BuildEdges ==> a.refresh_v(
            FilterView::BuildEdges,
            b,
        ),
        ev.get("type"@) == Some(JV::Str("session_added"@)) || ev.get("type"@) == Some(JV::Str("session_removed"@)) || ev.get(
            "type"@,
        ) == Some(JV::Str("session_renamed"@)) ==> b.plan().len() > a.plan().len() && b.plan()[0] == StepV::Op(
            Op::RefreshSessions,
        ) && b.plan()[1] == StepV::Op(Op::LoadChanges),
{
    lemma_event_names();
}

/// A list that is loaded again is opened for the same box and with the same filter, and its row is
/// found again.
pub proof fn law_a_refreshed_list_is_opened_again(a: App, b: App, v: FilterView, n: i64)
    requires
        on_box(a, sdec(n as int)),
        a.refresh_v(v, b),
    ensures
        a.win(v).view matches Some(id) ==> b.plan()[0] == StepV::Call("view.close"@, seq![JV::Int(id as int)], Then::Ignore),
        ({
            let k = if a.win(v).view is Some { 1int } else { 0 };
            &&& b.plan().len() == a.plan().len() + k + 1
            &&& b.plan()[k] matches StepV::Call(verb, args, then) && {
                &&& verb == "view.open"@
                &&& args.len() >= 3
                &&& args[0] == JV::Str(list_name(v))
                &&& args[1] == JV::Int(n as int)
                &&& then matches Then::Reopened(u, start, sel, _) && u == v && start == a.win(v).start && sel == a.win(
                    v,
                ).sel
            }
        }),
        b.win(v).rows == a.win(v).rows,
{
    law_numbers_are_read_as_written(n);
}

/// The row that the cursor is on is remembered by its number while its list is loaded again, and the
/// path of a change while the changes are.
pub proof fn law_the_row_at_the_cursor_is_remembered(a: App, b: App, v: FilterView, box_id: i64, n: i64, path: Seq<char>)
    requires
        on_box(a, sdec(box_id as int)),
        a.win(v).view is None,
        a.refresh_v(v, b),
    ensures
        v == FilterView::Procs && at_row(a.lists.processes, "rid"@, JV::Int(n as int)) ==> (b.plan()[0]->Call_2
            matches Then::Reopened(_, _, _, pin) && pin == Some(n)),
        v == FilterView::Outputs && at_row(a.lists.outputs, "id"@, JV::Int(n as int)) ==> (b.plan()[0]->Call_2
            matches Then::Reopened(_, _, _, pin) && pin == Some(n)),
        v == FilterView::Pipelines && at_row(a.lists.pipelines, "id"@, JV::Int(n as int)) ==> (b.plan()[0]->Call_2
            matches Then::Reopened(_, _, _, pin) && pin == Some(n)),
        v == FilterView::Changes && at_row(a.lists.changes, "path"@, JV::Str(path)) ==> (b.diff.pin matches Some(p) && p@
            == path),
{
    law_numbers_are_read_as_written(box_id);
}

/// A list that is open again is asked for its rows, and then its cursor is put back.
pub proof fn law_the_cursor_is_put_back(a: App, b: App, v: FilterView, start: usize, sel: usize, pin: Option<i64>, j: Json, id: u64)
    requires
        j@.get("view_id"@) == Some(JV::Int(id as int)),
        a.answer_v(Then::Reopened(v, start, sel, pin), Ok(j), b),
    ensures
        b.win(v).view == Some(id),
        b.plan().len() == a.plan().len() + 2,
        b.plan()[0] matches StepV::Op(Op::Fetch(u, _)) && u == v,
        v == FilterView::Changes ==> b.plan()[1] == StepV::Op(Op::RepinPath(sel)),
        v != FilterView::Changes ==> b.plan()[1] == StepV::Op(Op::Repin(v, sel, pin)),
{
}

/// A list of pipelines or targets is shown from its end, any other from its beginning.
pub proof fn law_lists_begin_where_they_are_read(a: App, b: App, v: FilterView, n: i64, j: Json, total: u64)
    requires
        j@.get("total"@) == Some(JV::Int(total as int)),
        400 < total <= usize::MAX,
        !a.filter(v).on,
        a.answer_v(Then::Opened(v, n), Ok(j), b),
    ensures
        v == FilterView::Changes || v == FilterView::Procs || v == FilterView::Outputs ==> b.plan()[0] == StepV::Op(
            Op::Fetch(v, 0),
        ),
        v == FilterView::Pipelines || v == FilterView::BuildEdges ==> b.plan()[0] == StepV::Op(
            Op::Fetch(v, (total - 400) as usize),
        ) && b.plan()[1] == StepV::Op(Op::SeekLast(v)),
        v == FilterView::Changes || v == FilterView::Procs ==> b.plan()[1] == StepV::Op(Op::SeekFirst(v)),
{
}

} // verus!
