//! Finding rows again, the way back, late answers, and what is under way.

use vstd::prelude::*;

#[allow(unused_imports)]
use crate::answers::{decoratable, leaf_paths};
#[allow(unused_imports)]
use crate::app::{App, Op, StepV, Then};
#[allow(unused_imports)]
use crate::fmt::{age_secs, ulp};
#[allow(unused_imports)]
use crate::json::{jvs, Json, JV};
#[allow(unused_imports)]
use crate::laws::writing::law_mantissas_are_near;
#[allow(unused_imports)]
use crate::laws::{on_box, only_plans};
#[allow(unused_imports)]
use crate::num::{exponent, near, of_float, shifted, significand, two, NumV, ONE};
#[allow(unused_imports)]
use crate::terms::{cell_place, env_values, pty_env, pty_event, screen_color, CellColor, Mouse, MouseKind};
#[allow(unused_imports)]
use crate::text::{lines, strs};
#[allow(unused_imports)]
use crate::types::{modal_v, snaps, FilterView, ModalV, Pane};

verus! {

/// A row is looked for in the list that is open, by its number, and the cursor is put where the
/// engine says that it is.
pub proof fn law_a_row_is_found_again(a: App, b: App, c: App, v: FilterView, id: u64, n: i64, j: Json, pos: u64)
    requires
        a.win(v).view == Some(id),
        a.op_v(Op::ScrollTo(v, n), b),
        j@.get("ok"@) == Some(JV::Bool(true)),
        j@.get("pos"@) == Some(JV::Int(pos as int)),
        pos <= usize::MAX,
        a.answer_v(Then::Find(v), Ok(j), c),
    ensures
        b.plan() == seq![
            StepV::Call("view.find"@, seq![JV::Int(id as int), JV::Int(n as int)], Then::Find(v)),
        ] + a.plan(),
        c.plan().len() == a.plan().len() + 2,
        c.plan()[0] matches StepV::Op(Op::Fetch(u, start)) && u == v && start <= pos && pos - start <= 200,
        c.plan()[1] == StepV::Op(Op::Place(v, pos as usize)),
{
}

/// A row that the engine does not find leaves the cursor where it is.
pub proof fn law_a_row_that_is_gone_is_not_looked_for(a: App, c: App, v: FilterView, r: Result<Json, String>)
    requires
        r matches Ok(j) ==> j@.get("ok"@) != Some(JV::Bool(true)),
        a.answer_v(Then::Find(v), r, c),
    ensures
        c == a,
{
}

/// Going back restores the filter of the list, tells the engine of it, and puts the cursor where it
/// was.
pub proof fn law_going_back_restores_the_list(a: App, b: App, v: FilterView)
    requires
        a.back_v() is Some,
        crate::laws::going::shows(a.back_v()->0.pane, v),
        a.back_v()->0.filter is Some,
        0 <= a.back_v()->0.cursor <= usize::MAX,
        a.op_v(Op::Restore, b),
    ensures
        b.filter(v)@ == a.back_v()->0.filter->0,
        b.shown.err_only == a.back_v()->0.err_only,
        b.ui.back is None,
        forall|u: FilterView| u != v ==> b.filter(u) == a.filter(u),
        ({
            let k = if a.win(v).view is Some { 1int } else { 0 };
            &&& b.plan().len() >= a.plan().len() + k + 2
            &&& b.plan()[k + 1] == StepV::Op(Op::Place(v, a.back_v()->0.cursor as usize))
            &&& a.win(v).view matches Some(id) ==> (b.plan()[0] matches StepV::Call(verb, args, _) && verb
                == "view.filter"@ && args.len() == 2 && args[0] == JV::Int(id as int) && args[1] == b.sent_filter(v))
        }),
{
}

/// Going back shows the pane that was left last, and takes it out of the history.
pub proof fn law_going_back_goes_to_the_last_pane(a: App, b: App)
    requires
        a.ui.nav_history@.len() > 0,
        a.go_back_v(b),
    ensures
        b.ui.focus == a.ui.nav_history@[a.ui.nav_history@.len() - 1].pane,
        snaps(b.ui.nav_history@).len() == a.ui.nav_history@.len() - 1,
        b.filters == a.filters,
{
    assert(snaps(a.ui.nav_history@).len() == a.ui.nav_history@.len());
}

/// With no earlier view nothing changes but the status line.
pub proof fn law_there_is_nothing_before_the_first_view(a: App, b: App)
    requires
        a.ui.nav_history@.len() == 0,
        a.go_back_v(b),
    ensures
        b.ui.focus == a.ui.focus,
        b.todo == a.todo,
        b.ui.status@ == "back: no earlier view"@,
{
    assert(snaps(a.ui.nav_history@).len() == a.ui.nav_history@.len());
}

/// The rest of a structural diff is shown where it is still waited for; one of a change that was
/// left is dropped.
pub proof fn law_late_diffs_are_dropped(a: App, b: App, generation: u64, r: Result<JV, Seq<char>>)
    requires
        a.struct_done_v(generation, r, b),
    ensures
        generation != a.diff.structd.generation ==> b == a,
        !a.diff.waiting ==> b == a,
        a.diff.waiting && generation == a.diff.structd.generation ==> b.diff.structd.full_lines is Some
            && !b.diff.structd.pending && !b.diff.waiting && b.diff.hunks == a.diff.hunks,
{
}

/// A structural diff that is under way is stopped when another change is looked at.
pub proof fn law_a_diff_that_is_left_is_stopped(a: App, b: App, job: i64)
    requires
        a.diff.structd.job == Some(job),
        a.load_hunks_v(b),
    ensures
        b.plan().len() > a.plan().len(),
        b.plan()[0] == StepV::Call("struct_cancel"@, seq![JV::Int(job as int)], Then::Ignore),
        b.diff.structd.job is None,
        a.diff.structd.generation < u64::MAX ==> b.diff.structd.generation == a.diff.structd.generation + 1,
{
}

/// The kinds of the changes in the window are asked for, for those that have one.
pub proof fn law_kinds_are_asked_for(a: App, b: App, sid: Seq<char>, start: usize, j: Json, path: Seq<char>, r: JV)
    requires
        on_box(a, sid),
        j@.get("rows"@) == Some(JV::Arr(seq![r])),
        r.get("path"@) == Some(JV::Str(path)),
        r.get("connector"@) is None,
        r.get("kind"@) is None,
        a.answer_v(Then::Window(FilterView::Changes, start), Ok(j), b),
    ensures
        b.plan() == seq![
            StepV::Call("review.decorate_many"@, seq![JV::Str(sid), JV::Arr(seq![JV::Str(path)])], Then::Decor),
        ] + a.plan(),
{
    reveal_with_fuel(leaf_paths, 2);
    assert(seq![r].drop_last() =~= Seq::<JV>::empty());
    assert(leaf_paths(seq![r]) =~= seq![JV::Str(path)]);
}

/// The written rules are told to the engine; where they could not be written it is not told.
pub proof fn law_written_rules_are_reloaded(a: App, b: App, r: Result<(), String>)
    requires
        a.rules_written_v(r, b),
    ensures
        r is Ok ==> b.plan() == seq![StepV::Call("reload_rules"@, Seq::empty(), Then::RulesReloaded)] + a.plan(),
        r matches Err(e) ==> b.plan() == a.plan() && b.ui.status@ == "write rules: "@ + e@,
        b.side == a.side,
{
}

/// The rules are the lines of their file, and the cursor is on one of them.
pub proof fn law_rules_are_the_lines_of_their_file(a: App, b: App, text: Seq<char>)
    requires
        a.rules_read_v(text, b),
    ensures
        strs(b.side.rules@) == lines(text),
        b.side.rules@.len() > 0 ==> b.side.sel_rule < b.side.rules@.len(),
        a.side.sel_rule < lines(text).len() ==> b.side.sel_rule == a.side.sel_rule,
{
    assert(strs(b.side.rules@).len() == b.side.rules@.len());
    assert(b.side.rules.len() == b.side.rules@.len());
}

/// The mouse is told to a program in the columns and the rows of its own terminal, and only there.
pub proof fn law_the_mouse_is_told_from_the_corner(m: Mouse, x: u16, y: u16, w: u16, h: u16)
    requires
        m.kind != MouseKind::Moved,
    ensures
        ({
            let grid = crate::outside::Rect { x, y, width: w, height: h };
            let inside = x <= m.column < x + w && y <= m.row < y + h;
            &&& inside ==> (pty_event(m, grid) matches Some(e) && e.x == m.column - x && e.y == m.row - y && e.mods == m.mods)
            &&& !inside ==> pty_event(m, grid) is None
        }),
{
}

/// A terminal whose program has ended is marked, and no other.
pub proof fn law_an_ended_program_is_marked(a: App, b: App, i: usize)
    requires
        i < a.terms.ptys@.len(),
        a.pty_ended_v(i, b),
    ensures
        b.terms.ptys@.len() == a.terms.ptys@.len(),
        b.terms.ptys@[i as int].eof,
        forall|k: int| 0 <= k < a.terms.ptys@.len() && k != i ==> #[trigger] b.terms.ptys@[k] == a.terms.ptys@[k],
        b.terms.sel == a.terms.sel,
        b.todo == a.todo,
{
}

/// The first colours of a terminal are the sixteen that have names; any other is its number.
pub proof fn law_colours_of_a_terminal()
    ensures
        screen_color(CellColor::Default) is None,
        screen_color(CellColor::Palette(1)) == Some(crate::style::Color::Red),
        screen_color(CellColor::Palette(2)) == Some(crate::style::Color::Green),
        screen_color(CellColor::Palette(3)) == Some(crate::style::Color::Yellow),
        screen_color(CellColor::Palette(4)) == Some(crate::style::Color::Blue),
        screen_color(CellColor::Palette(7)) == Some(crate::style::Color::Gray),
        screen_color(CellColor::Palette(15)) == Some(crate::style::Color::White),
        forall|i: u8| i >= 16 ==> #[trigger] screen_color(CellColor::Palette(i)) == Some(crate::style::Color::Indexed(i)),
        forall|r: u8, g: u8, b: u8| #[trigger]
            screen_color(CellColor::True(r, g, b)) == Some(crate::style::Color::Rgb(r, g, b)),
{
}

/// The last rows of a terminal are on the screen, each in its place.
pub proof fn law_cells_have_their_place(line: int, column: int, total: int, rows: int, cols: int, area: crate::outside::Rect)
    requires
        0 <= column < cols,
        column < area.width,
        rows <= area.height,
        0 <= line < total,
    ensures
        total <= rows ==> cell_place(line, column, total, rows, cols, area) == Some((area.x + column, area.y + line)),
        total > rows && line >= total - rows ==> cell_place(line, column, total, rows, cols, area) == Some(
            (area.x + column, area.y + (line - (total - rows))),
        ),
        total > rows && line < total - rows ==> cell_place(line, column, total, rows, cols, area) is None,
{
}

/// A question whether there is an endpoint leads to the models where there is none, once.
pub proof fn law_models_are_offered_where_there_is_no_endpoint(a: App, b: App, j: Json)
    requires
        a.answer_v(Then::ApiStatus, Ok(j), b),
    ensures
        j@.get("kind"@) == Some(JV::Str("none"@)) ==> b.jobs.model_picker_offered && b.plan() == seq![StepV::FetchModels]
            + a.plan() && modal_v(b.ui.modal) is Some,
        j@.get("kind"@) is None ==> b == a,
{
}

/// A test of an endpoint says whether it could be reached.
pub proof fn law_a_test_tells_what_came_of_it(j: JV, d: Seq<char>)
    ensures
        j.get("ok"@) == Some(JV::Bool(true)) && j.get("detail"@) == Some(JV::Str(d)) ==> App::probe_text(
            Ok::<JV, Seq<char>>(j),
        ) == "✓ "@ + d,
        j.get("ok"@) == Some(JV::Bool(false)) && j.get("error"@) == Some(JV::Str(d)) ==> App::probe_text(
            Ok::<JV, Seq<char>>(j),
        ) == "✗ "@ + d,
        App::probe_text(Err::<JV, Seq<char>>(d)) == "✗ "@ + d,
{
}

/// A difference is the nearest that a mantissa of 53 bits holds, with its sign.
pub proof fn law_differences_are_near(a: NumV, b: NumV)
    ensures
        ({
            let d = a.value() - b.value();
            let m = a.minus(b);
            let size = if d < 0 { -d } else { d };
            &&& m.neg == (d < 0)
            &&& -ulp(size) <= 2 * (m.size - size) <= ulp(size)
            &&& size < 0x20_0000_0000_0000 ==> m.size == size
        }),
{
    let d = a.value() - b.value();
    law_mantissas_are_near(if d < 0 { -d } else { d });
}

/// The whole of a number is what is before its point, and an age is the whole seconds since.
pub proof fn law_wholes_are_cut_off(t: NumV, now: NumV)
    requires
        0 <= t.size < 0x7fff_ffff_ffff_ffff * ONE,
    ensures
        !t.neg ==> t.whole() * ONE <= t.size < t.whole() * ONE + ONE,
        t.neg ==> -t.whole() * ONE <= t.size < -t.whole() * ONE + ONE,
        age_secs(now, t) >= 0,
        now.minus(t).whole() >= 0 ==> age_secs(now, t) == now.minus(t).whole(),
        now.minus(t).whole() < 0 ==> age_secs(now, t) == 0,
{
}

proof fn lemma_doubled(n: int, e: int)
    requires
        e >= 0,
    ensures
        n * two(e + 1) == 2 * (n * two(e)),
{
    assert(n * two(e + 1) == 2 * (n * two(e))) by (nonlinear_arith)
        requires
            two(e + 1) == 2 * two(e),
    ;
}

/// The bits of a float: the highest is its sign, the next eleven double it, the others count its
/// smallest step.
pub proof fn law_bits_of_a_float(bits: u64)
    requires
        995 <= (bits as int / 0x10_0000_0000_0000) % 0x800 < 1080,
    ensures
        of_float(bits as int).neg == (bits >= 0x8000_0000_0000_0000),
        significand(bits as int) == 0x10_0000_0000_0000 + bits as int % 0x10_0000_0000_0000,
        exponent(bits as int) == (bits as int / 0x10_0000_0000_0000) % 0x800 - 995,
        exponent(bits + 0x10_0000_0000_0000) == exponent(bits as int) + 1,
        shifted(significand(bits as int), exponent(bits as int) + 1) == 2 * shifted(
            significand(bits as int),
            exponent(bits as int),
        ) || shifted(significand(bits as int), exponent(bits as int) + 1) == 0x1_0000_0000_0000_0000 * ONE - 1,
        shifted(0x10_0000_0000_0000, 0) == 0x10_0000_0000_0000,
{
    lemma_doubled(significand(bits as int), exponent(bits as int));
    assert(two(0) == 1);
}

} // verus!
