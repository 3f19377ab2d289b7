//! Particulars: kinds of changes, models, images, wrapped lines, the parts of the screen.

use vstd::prelude::*;

#[allow(unused_imports)]
use crate::answers::{decor_of, decor_v, decoratable, leaf_paths, leaves_before};
#[allow(unused_imports)]
use crate::app::{pairs_v, App, Op, StepV, Then};
#[allow(unused_imports)]
use crate::diff::{header_lines, meta_text};
#[allow(unused_imports)]
use crate::fmt::{bytes_text, mode_text, oct};
#[allow(unused_imports)]
use crate::jobs::{model_of, models_in, models_of};
#[allow(unused_imports)]
use crate::json::{jvs, Json, JV};
#[allow(unused_imports)]
use crate::keys::{KeyCode, Mods};
#[allow(unused_imports)]
use crate::launch::{agent_session, alnum, bare_slug, lower, slug};
#[allow(unused_imports)]
use crate::laws::going::shows;
#[allow(unused_imports)]
use crate::laws::{list_has_keys, on_box};
#[allow(unused_imports)]
use crate::menus::command_at;
#[allow(unused_imports)]
use crate::modals::{kind_after, menu_cursor, place_of, search_edited};
#[allow(unused_imports)]
use crate::outpane::window;
#[allow(unused_imports)]
use crate::rules::{ClauseV, Join};
#[allow(unused_imports)]
use crate::screen::{follow_row, inner_width, line_columns, line_rows, rows_of, scroll_end};
#[allow(unused_imports)]
use crate::style::LineV;
#[allow(unused_imports)]
use crate::text::{dec, has_prefix, sdec, strs, trimmed};
#[allow(unused_imports)]
use crate::types::{modal_v, ClauseField, FilterView, ModalV, ModelV, Pane};

verus! {

/// Where every row of the window is a change, each gets the kind that the engine tells in its place.
pub proof fn law_kinds_go_to_their_changes(rows: Seq<JV>, decs: Seq<JV>, i: int, before: (Seq<char>, bool), kind: Seq<char>)
    requires
        forall|k: int| 0 <= k < rows.len() ==> decoratable(#[trigger] rows[k]),
        0 <= i < rows.len(),
        i < decs.len(),
        decs[i].get("kind"@) == Some(JV::Str(kind)),
    ensures
        decor_of(rows, decs, i, before).0 == kind,
        decor_of(rows, decs, i, before).1 == (decs[i].get("stale"@) == Some(JV::Bool(true))),
{
    lemma_leaves(rows, i);
}

proof fn lemma_leaves(rows: Seq<JV>, n: int)
    requires
        forall|k: int| 0 <= k < rows.len() ==> decoratable(#[trigger] rows[k]),
        0 <= n <= rows.len(),
    ensures
        leaves_before(rows, n) == n,
    decreases n,
{
    if n > 0 {
        lemma_leaves(rows, n - 1);
        assert(decoratable(rows[n - 1]));
    }
}

/// A mere connection has no kind, nor has a change of attributes.
pub proof fn law_connections_have_no_kind(r: JV)
    ensures
        r.get("connector"@) == Some(JV::Bool(true)) ==> !decoratable(r),
        r.get("kind"@) == Some(JV::Str("xattr"@)) ==> !decoratable(r),
        r.get("connector"@) is None && r.get("kind"@) is None ==> decoratable(r),
{
}

/// The header of a change shows its path, its kind, its size and its mode, and whether the host's
/// file has changed meanwhile.
pub proof fn law_the_header_shows_its_change(rel: Seq<char>, kind: Seq<char>, stale: bool, size: int, mode: Option<int>)
    ensures
        header_lines(rel, kind, stale, Some(size), mode).len() == (if stale { 3int } else { 2 }),
        header_lines(rel, kind, stale, Some(size), mode)[0] == ("bold"@, "/"@ + rel),
        header_lines(rel, kind, stale, Some(size), None)[1].1 == kind + (" · "@ + bytes_text(size)) + Seq::<char>::empty(),
        stale ==> header_lines(rel, kind, stale, Some(size), mode)[2].0 == "stale"@,
{
}

/// A model is offered with its name, and is served from its address.
pub proof fn law_models_are_what_the_engine_tells(m: JV, name: Seq<char>, url: Seq<char>)
    requires
        m.get("name"@) == Some(JV::Str(name)),
        m.get("url"@) == Some(JV::Str(url)),
    ensures
        model_of(m) matches Some(v) && v.name == name && v.url == url,
        models_in(seq![m]).len() == 1,
        models_in(seq![m])[0].url == url,
{
    reveal_with_fuel(models_in, 2);
    assert(seq![m].drop_last() =~= Seq::<JV>::empty());
}

proof fn lemma_images(rows: Seq<JV>, more: JV)
    ensures
        App::images_of(rows.push(more)) == (match (more.get_str("name"@), more.get_str("reference"@)) {
            (Some(n), Some(f)) => App::images_of(rows).push((n, f)),
            _ => App::images_of(rows),
        }),
{
    assert(rows.push(more).drop_last() =~= rows);
}

/// A loaded image is known by its name, with the reference that it came from.
pub proof fn law_images_are_what_the_engine_tells(rows: Seq<JV>, more: JV, name: Seq<char>, reference: Seq<char>)
    requires
        more.get("name"@) == Some(JV::Str(name)),
        more.get("reference"@) == Some(JV::Str(reference)),
    ensures
        App::images_of(rows.push(more)) == App::images_of(rows).push((name, reference)),
        App::images_of(Seq::empty()).len() == 0,
{
    lemma_images(rows, more);
}

/// In the filter dialog, `n` puts a new row behind all others and goes to it; the arrows go from row
/// to row and from field to field, and change no row.
pub proof fn law_rows_of_the_filter_dialog(v: FilterView, rows: Seq<ClauseV>, sel: int, field: ClauseField)
    requires
        0 <= sel < rows.len(),
    ensures
        field != ClauseField::Pattern ==> (search_edited(v, rows, sel, field, KeyCode::Char('n')) matches ModalV::Search {
            view,
            rows: after,
            sel: at,
            field: on,
        } && view == v && after.len() == rows.len() + 1 && after.take(rows.len() as int) == rows && at == rows.len() && on
            == ClauseField::Pattern && after.last().pattern.len() == 0 && after.last().enabled && !after.last().negate),
        sel + 1 < rows.len() ==> search_edited(v, rows, sel, field, KeyCode::Down) == (ModalV::Search {
            view: v,
            rows,
            sel: sel + 1,
            field,
        }),
        sel > 0 ==> search_edited(v, rows, sel, field, KeyCode::Up) == (ModalV::Search { view: v, rows, sel: sel - 1, field }),
        search_edited(v, rows, sel, ClauseField::Enabled, KeyCode::Right) == (ModalV::Search {
            view: v,
            rows,
            sel,
            field: ClauseField::Join,
        }),
        search_edited(v, rows, sel, ClauseField::Join, KeyCode::Right) == (ModalV::Search {
            view: v,
            rows,
            sel,
            field: ClauseField::Negate,
        }),
        search_edited(v, rows, sel, ClauseField::Negate, KeyCode::Right) == (ModalV::Search {
            view: v,
            rows,
            sel,
            field: ClauseField::Kind,
        }),
        search_edited(v, rows, sel, ClauseField::Kind, KeyCode::Right) == (ModalV::Search {
            view: v,
            rows,
            sel,
            field: ClauseField::Pattern,
        }),
        search_edited(v, rows, sel, ClauseField::Pattern, KeyCode::Left) == (ModalV::Search {
            view: v,
            rows,
            sel,
            field: ClauseField::Kind,
        }),
{
    let after = search_edited(v, rows, sel, field, KeyCode::Char('n'));
    if field != ClauseField::Pattern {
        assert(after->Search_rows.take(rows.len() as int) =~= rows);
    }
}

/// The kind behind the last of a list is its first, and behind any other the next.
pub proof fn law_kinds_go_round(kinds: Seq<Seq<char>>, i: int)
    requires
        0 <= i < kinds.len(),
        kinds.no_duplicates(),
    ensures
        i + 1 < kinds.len() ==> kind_after(kinds, kinds[i]) == kinds[i + 1],
        i + 1 == kinds.len() ==> kind_after(kinds, kinds[i]) == kinds[0],
{
    lemma_place(kinds, i, 0);
}

proof fn lemma_place(v: Seq<Seq<char>>, i: int, from: int)
    requires
        0 <= from <= i < v.len(),
        v.no_duplicates(),
    ensures
        place_of(v, v[i], from) == Some(i),
    decreases i - from,
{
    if from < i {
        assert(v[from] != v[i]);
        lemma_place(v, i, from + 1);
    }
}

/// Esc takes away what a list was narrowed to by another, and leaves a typed filter.
pub proof fn law_esc_widens_a_narrowed_list(a: App, b: App, v: FilterView, mods: Mods, now: u64)
    requires
        list_has_keys(a),
        shows(a.ui.focus, v),
        a.boxes.marks.keys@.len() == 0,
        a.key_v(KeyCode::Esc, mods, now, b),
    ensures
        a.filter(v).generated ==> !b.filter(v).on && b.filter(v)@.clauses.len() == 0,
        !a.filter(v).generated ==> b == a,
{
}

/// F1 shows the help from its beginning.
pub proof fn law_help_is_shown(a: App, b: App, mods: Mods, now: u64)
    requires
        list_has_keys(a),
        a.key_v(KeyCode::F(1), mods, now, b),
    ensures
        b.ui.focus == Pane::Help,
        b.ui.out_scroll == 0,
{
}

/// What is said of an answered question says what was answered, and for which host.
pub proof fn law_answered_questions_are_told(a: App, b: App, id: u64, host: Seq<char>, k: char, mods: Mods, now: u64)
    requires
        a.ui.modal is None,
        !a.ui.menu_nav,
        a.ui.renaming is None,
        a.ui.focus != Pane::Pty,
        !a.terms.in_right,
        a.jobs.prompt matches Some(p) && p@.get("id"@) == Some(JV::Int(id as int)) && p@.get("host"@) == Some(JV::Str(host)),
        a.key_v(KeyCode::Char(k), mods, now, b),
    ensures
        k == 'y' ==> b.plan().len() == a.plan().len() + 3 && b.plan()[2] == StepV::Say("allow this once: "@ + host),
        k == 'n' ==> b.plan().len() == a.plan().len() + 3 && b.plan()[2] == StepV::Say("deny this once: "@ + host),
        k == 'a' ==> b.plan().len() == a.plan().len() + 3 && b.plan()[2] == StepV::Say("ALLOW + saved: apply host:"@ + host),
        k == 'd' ==> b.plan().len() == a.plan().len() + 3 && b.plan()[2] == StepV::Say("DENY + saved: discard host:"@ + host),
{
}

/// The command that is offered is the first line of its file that is no remark.
pub proof fn law_remarks_are_no_commands(ls: Seq<Seq<char>>, i: int)
    requires
        0 <= i < ls.len(),
        forall|k: int| 0 <= k < i ==> trimmed(#[trigger] ls[k]).len() == 0 || trimmed(ls[k])[0] == '#',
        trimmed(ls[i]).len() > 0,
        trimmed(ls[i])[0] != '#',
    ensures
        command_at(ls, 0) == Some(trimmed(ls[i])),
{
    lemma_command(ls, i, 0);
}

proof fn lemma_command(ls: Seq<Seq<char>>, i: int, from: int)
    requires
        0 <= from <= i < ls.len(),
        forall|k: int| 0 <= k < i ==> trimmed(#[trigger] ls[k]).len() == 0 || trimmed(ls[k])[0] == '#',
        trimmed(ls[i]).len() > 0,
        trimmed(ls[i])[0] != '#',
    ensures
        command_at(ls, from) == Some(trimmed(ls[i])),
    decreases i - from,
{
    reveal_strlit("#");
    assert("#"@ =~= seq!['#']);
    let l = trimmed(ls[from]);
    if l.len() > 0 {
        assert(l.take(1) =~= seq![l[0]]);
        assert(has_prefix(l, "#"@) == (l[0] == '#')) by {
            if l[0] == '#' {
                assert(l.take(1) =~= "#"@);
            } else {
                assert(l.take(1)[0] != "#"@[0]);
            }
        }
    }
    if from < i {
        lemma_command(ls, i, from + 1);
    }
}

/// The session of an agent on a box is named for the box.
pub proof fn law_agents_are_named_for_their_box(name: Seq<char>)
    requires
        name.len() > 0,
        forall|i: int| 0 <= i < name.len() ==> ('a' <= #[trigger] name[i] <= 'z') || ('0' <= name[i] <= '9'),
    ensures
        agent_session(name) == name + "agent"@,
{
    lemma_bare(name);
}

proof fn lemma_bare(s: Seq<char>)
    requires
        forall|i: int| 0 <= i < s.len() ==> ('a' <= #[trigger] s[i] <= 'z') || ('0' <= s[i] <= '9'),
    ensures
        bare_slug(s) == s,
    decreases s.len(),
{
    if s.len() > 0 {
        let front = s.drop_last();
        assert forall|i: int| 0 <= i < front.len() implies ('a' <= #[trigger] front[i] <= 'z') || ('0' <= front[i] <= '9') by {
            assert(front[i] == s[i]);
        }
        lemma_bare(front);
        assert(s[s.len() - 1] == s.last());
        assert(bare_slug(s) =~= s);
    } else {
        assert(bare_slug(s) =~= s);
    }
}

/// Of outputs that are too long to be shown whole, as much as there is room for is shown, with the
/// one at the cursor in it.
pub proof fn law_the_output_at_the_cursor_is_shown(total: int, at: int)
    requires
        0 <= at < total,
    ensures
        ({
            let (from, to) = window(total, at);
            &&& 0 <= from <= at < to <= total
            &&& total <= 8000 ==> from == 0 && to == total
            &&& total > 8000 ==> to - from == 8000
        }),
{
}

/// A line takes up as many rows as it fills, and one at least.
pub proof fn law_lines_take_up_rows(l: LineV, w: int)
    requires
        w > 0,
        line_columns(l) >= 0,
    ensures
        line_rows(l, w) >= 1,
        line_rows(l, w) * w >= line_columns(l),
        line_columns(l) > 0 ==> (line_rows(l, w) - 1) * w < line_columns(l),
{
    let c = line_columns(l);
    let n = (c + w - 1) / w;
    assert(n * w <= c + w - 1 < n * w + w) by (nonlinear_arith)
        requires
            n == (c + w - 1) / w,
            w > 0,
    ;
    assert((n - 1) * w == n * w - w) by (nonlinear_arith);
    if n <= 1 {
        assert(n * w <= w) by (nonlinear_arith)
            requires
                n <= 1,
                w > 0,
        ;
        assert(1 * w == w);
        assert(0 * w == 0);
    }
}

/// A text of several lines takes up the rows of all of them.
pub proof fn law_texts_take_up_the_rows_of_their_lines(ls: Seq<LineV>, l: LineV, w: int)
    ensures
        rows_of(ls.push(l), w) == rows_of(ls, w) + line_rows(l, w),
        rows_of(Seq::empty(), w) == 0,
{
    assert(ls.push(l).drop_last() =~= ls);
}

/// A text is scrolled until its last row is the last one that is shown.
pub proof fn law_scrolling_ends_with_the_last_row(text: Seq<LineV>, area: crate::outside::Rect)
    requires
        area.height >= 2,
        rows_of(text, inner_width(area)) <= 65535,
    ensures
        ({
            let rows = rows_of(text, inner_width(area));
            &&& rows <= area.height - 2 ==> scroll_end(text, area) == 0 || rows < 0
            &&& rows > area.height - 2 ==> scroll_end(text, area) + (area.height - 2) == rows
        }),
{
}

/// The endpoint is looked up before the calls of a box are asked for.
pub proof fn law_calls_are_asked_for_in_order()
    ensures
        App::api_steps() == seq![StepV::ReadEndpoint, StepV::Op(Op::OfferModels), StepV::Op(Op::ApiLogRows)],
{
}

/// `P` goes to the terminal that runs, and offers to start one where none does.
pub proof fn law_terminals_are_gone_to(a: App, b: App, mods: Mods, now: u64)
    requires
        list_has_keys(a),
        a.terms.sel < a.terms.ptys@.len(),
        !a.terms.ptys@[a.terms.sel as int].eof,
        a.key_v(KeyCode::Char('P'), mods, now, b),
    ensures
        b.ui.focus == Pane::Pty,
        b.terms.sel == a.terms.sel,
        b.terms.ptys == a.terms.ptys,
{
    lemma_live(a.terms.ptys@, 0, a.terms.sel as int);
    reveal_with_fuel(crate::keys::pane_from, 15);
    assert(crate::keys::pane_table().len() == 13);
}

proof fn lemma_live(v: Seq<crate::types::PtyInfo>, from: int, i: int)
    requires
        0 <= from <= i < v.len(),
        !v[i].eof,
    ensures
        crate::control::live_pty(v, from) is Some,
    decreases i - from,
{
    if v[from].eof {
        lemma_live(v, from + 1, i);
    }
}

} // verus!
