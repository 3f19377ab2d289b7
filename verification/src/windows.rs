//! Loading the lists, taking in what the engine answers, and moving the cursor over them.

use vstd::prelude::*;

use crate::app::{App, Op, Then, Ui, WINDOW_SIZE};
#[allow(unused_imports)]
use crate::app::StepV;
use crate::json::{list2, Json};
#[allow(unused_imports)]
use crate::json::JV;
use crate::lists::{fit_usize, name_of_list, position_num, position_str};
#[allow(unused_imports)]
use crate::lists::{
    find_num, find_str, first_real, fit, has_connectors, is_connector, less_one, list_name, minus, rep_v, smaller,
};
use crate::text::{contains, own};
#[allow(unused_imports)]
use crate::text::holds_text;
use crate::types::{FilterView, Win};

verus! {

/// Where a cursor comes to.
pub enum Landing {
    /// Nowhere: the list ends there.
    Stay,
    /// On that row of the window.
    At(int),
    /// On that place of the list, which is outside of the window; the window from that row on
    /// holds it.
    Outside(int, int),
}

/// Where the cursor comes to from the place `g` of the list, forward or back, past rows that are
/// mere connections.
pub open spec fn landing(w: Win, v: FilterView, g: int, fwd: bool) -> Landing
    decreases (if fwd { w.total - g } else { g }),
{
    let ng = if fwd { g + 1 } else { g - 1 };
    if ng < 0 || ng >= w.total {
        Landing::Stay
    } else if ng < w.start || ng >= w.start + w.rows@.len() {
        Landing::Outside(minus(ng, if fwd { 100 } else { 300 }), ng)
    } else if has_connectors(v) && is_connector(w.rows@, ng - w.start) {
        landing(w, v, ng, fwd)
    } else {
        Landing::At(ng - w.start)
    }
}

impl App {
    /// What a cursor that comes to `l` changes.
    pub open spec fn landed(self, v: FilterView, l: Landing, fwd: bool, post: App) -> bool {
        match l {
            Landing::Stay => post == self,
            Landing::At(i) => post == self.with_win(v, (Win { sel: i as usize, ..self.win(v) })),
            Landing::Outside(start, g) => {
                &&& post == (App { todo: post.todo, ..self })
                &&& post.plan() == seq![
                    StepV::Op(Op::Fetch(v, start as usize)),
                    StepV::Op(Op::Settle(v, g as usize, fwd)),
                ] + self.plan()
            },
        }
    }

    /// Moves the cursor of a list on from a place of the list.
    pub fn advance_from(&mut self, v: FilterView, from: u128, fwd: bool)
        requires
            from <= 2 * (usize::MAX as int),
        ensures
            old(self).landed(v, landing(old(self).win(v), v, from as int, fwd), fwd, *final(self)),
    {
        let mut g: u128 = from;
        let start: u128 = self.window(v).start as u128;
        let total: u128 = self.window(v).total as u128;
        let len: u128 = self.window(v).rows.len() as u128;
        let skips: bool = match v {
            FilterView::Changes | FilterView::Procs => true,
            _ => false,
        };
        let ghost w = self.win(v);
        let ghost target = landing(w, v, from as int, fwd);
        loop
            invariant
                *self == *old(self),
                w == self.win(v),
                start == w.start,
                total == w.total,
                len == w.rows@.len(),
                start <= usize::MAX,
                len <= usize::MAX,
                skips == has_connectors(v),
                g <= 2 * (usize::MAX as int),
                target == landing(w, v, g as int, fwd),
                target == landing(old(self).win(v), v, from as int, fwd),
            decreases (if fwd { w.total - g } else { g as int }),
        {
            if !fwd && g == 0 {
                return;
            }
            let ng: u128 = if fwd { g + 1 } else { g - 1 };
            if ng >= total {
                return;
            }
            if ng < start || ng >= start + len {
                let back: u128 = if fwd { 100 } else { 300 };
                let at: u128 = if ng > back { ng - back } else { 0 };
                self.first_op(Op::Settle(v, ng as usize, fwd));
                let ghost mid = self.plan();
                self.first_op(Op::Fetch(v, at as usize));
                assert(self.plan() =~= seq![
                    StepV::Op(Op::Fetch(v, at as usize)),
                    StepV::Op(Op::Settle(v, ng as usize, fwd)),
                ] + old(self).plan());
                return;
            }
            let off: usize = (ng - start) as usize;
            let conn: bool = skips && self.window(v).rows[off].flag("connector");
            if !conn {
                self.set_sel(v, off);
                return;
            }
            g = ng;
        }
    }

    /// The change that `advance` makes.
    pub open spec fn advance_v(self, v: FilterView, fwd: bool, post: App) -> bool {
        self.landed(
                v,
                landing(self.win(v), v, self.win(v).start + self.win(v).sel, fwd),
                fwd,
                post,
            )
    }

    /// Moves the cursor of a list by one.
    pub fn advance(&mut self, v: FilterView, fwd: bool)
        ensures
            old(self).advance_v(v, fwd, *final(self)),
    {
        let g: u128 = self.window(v).start as u128 + self.window(v).sel as u128;
        self.advance_from(v, g, fwd);
    }

    /// What a cursor that is put on a place of the list changes.
    pub open spec fn settled_v(self, v: FilterView, g: int, fwd: bool, post: App) -> bool {
        let w = self.win(v);
        let off = minus(g, w.start as int);
        if has_connectors(v) && is_connector(w.rows@, off) {
            self.landed(v, landing(w, v, g, fwd), fwd, post)
        } else {
            post == self.with_win(v, (Win { sel: off as usize, ..w }))
        }
    }

    /// Puts the cursor on a place of the list after its window was fetched, or moves it on where
    /// a mere connection is.
    pub fn settle(&mut self, v: FilterView, g: usize, fwd: bool)
        ensures
            old(self).settled_v(v, g as int, fwd, *final(self)),
    {
        let start: usize = self.window(v).start;
        let off: usize = if g > start { g - start } else { 0 };
        let skips: bool = match v {
            FilterView::Changes | FilterView::Procs => true,
            _ => false,
        };
        let conn: bool = skips && off < self.window(v).rows.len() && self.window(v).rows[off].flag("connector");
        if conn {
            self.advance_from(v, g as u128, fwd);
        } else {
            self.set_sel(v, off);
        }
    }

    /// The change that `off_connector` makes.
    pub open spec fn off_connector_v(self, v: FilterView, fwd: bool, post: App) -> bool {
        &&& (is_connector(self.win(v).rows@, self.win(v).sel as int) ==> self.landed(
                v,
                landing(self.win(v), v, self.win(v).start + self.win(v).sel, fwd),
                fwd,
                post,
            ))
        &&& (!is_connector(self.win(v).rows@, self.win(v).sel as int) ==> post == self)
    }

    /// Moves the cursor off a mere connection.
    pub fn off_connector(&mut self, v: FilterView, fwd: bool)
        ensures
            old(self).off_connector_v(v, fwd, *final(self)),
    {
        let sel: usize = self.window(v).sel;
        let conn: bool = sel < self.window(v).rows.len() && self.window(v).rows[sel].flag("connector");
        if conn {
            self.advance(v, fwd);
        }
    }

    /// Puts the cursor on a place of the list, with the window around it.
    pub fn goto_view_pos(&mut self, v: FilterView, pos: usize)
        ensures
            *final(self) == (App { todo: final(self).todo, ..*old(self) }),
            final(self).plan() == seq![
                StepV::Op(Op::Fetch(v, minus(pos as int, 200) as usize)),
                StepV::Op(Op::Place(v, pos)),
            ] + old(self).plan(),
    {
        let start: usize = if pos > WINDOW_SIZE / 2 { pos - WINDOW_SIZE / 2 } else { 0 };
        self.first_op(Op::Place(v, pos));
        self.first_op(Op::Fetch(v, start));
        assert(self.plan() =~= seq![
            StepV::Op(Op::Fetch(v, minus(pos as int, 200) as usize)),
            StepV::Op(Op::Place(v, pos)),
        ] + old(self).plan());
    }

    /// The change that `place` makes.
    pub open spec fn place_v(self, v: FilterView, pos: usize, post: App) -> bool {
        post == self.with_win(
                v,
                (Win { sel: minus(pos as int, self.win(v).start as int) as usize, ..self.win(v) }),
            )
    }

    /// Puts the cursor on a place of the list that its window holds.
    pub fn place(&mut self, v: FilterView, pos: usize)
        ensures
            old(self).place_v(v, pos, *final(self)),
    {
        let start: usize = self.window(v).start;
        let off: usize = if pos > start { pos - start } else { 0 };
        self.set_sel(v, off);
    }

    /// The change that `seek_first` makes.
    pub open spec fn seek_first_v(self, v: FilterView, post: App) -> bool {
        post == self.with_win(
                v,
                (Win { sel: first_real(self.win(v).rows@, 0) as usize, ..self.win(v) }),
            )
    }

    /// Puts the cursor on the first row of a window that is not a mere connection.
    pub fn seek_first(&mut self, v: FilterView)
        ensures
            old(self).seek_first_v(v, *final(self)),
    {
        let n: usize = self.window(v).rows.len();
        let ghost rows = self.win(v).rows@;
        let mut i: usize = 0;
        while i < n && self.window(v).rows[i].flag("connector")
            invariant
                i <= n == rows.len(),
                rows == self.win(v).rows@,
                first_real(rows, 0) == first_real(rows, i as int),
            decreases n - i,
        {
            i += 1;
        }
        self.set_sel(v, if i < n { i } else { 0 });
    }

    /// The change that `seek_last` makes.
    pub open spec fn seek_last_v(self, v: FilterView, post: App) -> bool {
        post == self.with_win(
                v,
                (Win { sel: less_one(self.win(v).rows@.len() as int) as usize, ..self.win(v) }),
            )
    }

    /// Puts the cursor on the last row of a window.
    pub fn seek_last(&mut self, v: FilterView)
        ensures
            old(self).seek_last_v(v, *final(self)),
    {
        let n: usize = self.window(v).rows.len();
        self.set_sel(v, if n > 0 { n - 1 } else { 0 });
    }

    /// The member that a row of a list is known by.
    pub open spec fn key_of(v: FilterView) -> Seq<char> {
        if v == FilterView::Procs { "rid"@ } else { "id"@ }
    }

    /// The row that the cursor goes back to: the one of that number, else the one it was on, or
    /// the last.
    pub open spec fn repinned(rows: Seq<Json>, v: FilterView, saved: int, pin: Option<i64>) -> int {
        match (match pin {
            Some(n) => find_num(rows, App::key_of(v), n as int, 0),
            None => None,
        }) {
            Some(i) => i,
            None => smaller(saved, less_one(rows.len() as int)),
        }
    }

    /// The change that `repin` makes.
    pub open spec fn repin_v(self, v: FilterView, saved: usize, pin: Option<i64>, post: App) -> bool {
        post == self.with_win(
                v,
                (Win {
                    sel: App::repinned(self.win(v).rows@, v, saved as int, pin) as usize,
                    ..self.win(v)
                }),
            )
    }

    /// Puts the cursor back on the row that it was on before the list was opened again.
    pub fn repin(&mut self, v: FilterView, saved: usize, pin: Option<i64>)
        ensures
            old(self).repin_v(v, saved, pin, *final(self)),
    {
        let key: &str = if v == FilterView::Procs { "rid" } else { "id" };
        let found: Option<usize> = match pin {
            Some(n) => position_num(&self.window(v).rows, key, n),
            None => None,
        };
        let n: usize = self.window(v).rows.len();
        let last: usize = if n > 0 { n - 1 } else { 0 };
        let sel: usize = match found {
            Some(i) => i,
            None => if saved <= last { saved } else { last },
        };
        self.set_sel(v, sel);
    }

    /// The change that `repin_path` makes.
    pub open spec fn repin_path_v(self, saved: usize, post: App) -> bool {
        post == self.with_win(
                FilterView::Changes,
                (Win {
                    sel: (match (match self.diff.pin {
                        Some(p) => find_str(self.lists.changes.rows@, "path"@, p@, 0),
                        None => None,
                    }) {
                        Some(i) => i,
                        None => smaller(saved as int, less_one(self.lists.changes.rows@.len() as int)),
                    }) as usize,
                    ..self.lists.changes
                }),
            )
    }

    /// Puts the cursor of the changes back on the path that it was on.
    pub fn repin_path(&mut self, saved: usize)
        ensures
            old(self).repin_path_v(saved, *final(self)),
    {
        let found: Option<usize> = match &self.diff.pin {
            Some(p) => position_str(&self.lists.changes.rows, "path", p.as_str()),
            None => None,
        };
        let n: usize = self.lists.changes.rows.len();
        let last: usize = if n > 0 { n - 1 } else { 0 };
        let sel: usize = match found {
            Some(i) => i,
            None => if saved <= last { saved } else { last },
        };
        self.set_sel(FilterView::Changes, sel);
    }

    /// What the answer to a filter that was sent changes.
    pub open spec fn filtered_v(self, v: FilterView, r: Result<JV, Seq<char>>, post: App) -> bool {
        match r {
            Ok(j) => {
                &&& post == (App {
                    todo: post.todo,
                    ..self.with_win(
                        v,
                        (Win { total: fit(j.u64_or("total"@, 0)), start: 0, sel: 0, ..self.win(v) }),
                    )
                })
                &&& post.plan() == seq![StepV::Op(Op::Fetch(v, 0))] + self.plan()
            },
            Err(e) => self.says(post, "view.filter "@ + list_name(v) + ": "@ + e),
        }
    }

    /// Only the status line changes, to `s`.
    pub open spec fn says(self, post: App, s: Seq<char>) -> bool {
        &&& post == (App { ui: (Ui { status: post.ui.status, ..self.ui }), ..self })
        &&& post.ui.status@ == s
    }

    /// Takes in the answer to a filter.
    pub fn filtered(&mut self, v: FilterView, r: Result<Json, String>)
        ensures
            old(self).filtered_v(v, rep_v(r), *final(self)),
    {
        match r {
            Ok(j) => {
                let total: usize = fit_usize(j.u64_or("total", 0));
                let w: &Win = self.window(v);
                let view: Option<u64> = w.view;
                let sid: Option<i64> = w.sid;
                self.set_list(v, view, sid, total, 0, 0);
                self.first_op(Op::Fetch(v, 0));
            },
            Err(e) => {
                let s: String = own("view.filter ").concat(name_of_list(v)).concat(": ").concat(e.as_str());
                self.say(s.as_str());
            },
        }
    }

    /// Sends the filter of a list, where the list is open.
    pub fn push_filter(&mut self, v: FilterView)
        ensures
            *final(self) == (App { todo: final(self).todo, ..*old(self) }),
            match old(self).win(v).view {
                Some(id) => final(self).plan() == seq![
                    StepV::Call(
                        "view.filter"@,
                        seq![JV::Int(id as int), old(self).sent_filter(v)],
                        Then::Filtered(v),
                    ),
                ] + old(self).plan(),
                None => final(self).plan() == old(self).plan(),
            },
    {
        match self.window(v).view {
            Some(id) => {
                let f: Json = self.filter_json_for(v);
                self.first_call("view.filter", list2(Json::whole(id), f), Then::Filtered(v));
            },
            None => {},
        }
    }

    /// The message for an engine that does not know lists.
    pub open spec fn stale_text(self) -> Seq<char> {
        "engine doesn't speak view.* — kill the stale engine (the socket "@ + self.env.sock@
            + " is being answered by an old process) and run sarun again"@
    }

    /// The steps that follow once a list is open.
    pub open spec fn after_open(self, v: FilterView, total: int) -> Seq<StepV> {
        match v {
            FilterView::Changes => seq![
                StepV::Op(Op::Fetch(v, 0)),
                StepV::Op(Op::SeekFirst(v)),
                StepV::Op(Op::RefreshSummary),
            ],
            FilterView::Procs => seq![StepV::Op(Op::Fetch(v, 0)), StepV::Op(Op::SeekFirst(v))],
            FilterView::Outputs => seq![StepV::Op(Op::Fetch(v, 0))],
            _ => if self.filter(v).on {
                seq![StepV::Op(Op::Fetch(v, 0))]
            } else {
                seq![
                    StepV::Op(Op::Fetch(v, minus(total, WINDOW_SIZE as int) as usize)),
                    StepV::Op(Op::SeekLast(v)),
                ]
            },
        }
    }

    /// What the answer to the opening of a list changes.
    pub open spec fn opened_v(self, v: FilterView, sid: i64, r: Result<JV, Seq<char>>, post: App) -> bool {
        match r {
            Ok(j) => {
                let total = fit(j.u64_or("total"@, 0));
                let w = Win {
                    view: match j.get_u64("view_id"@) {
                        Some(n) => Some(n as u64),
                        None => None,
                    },
                    total,
                    sid: Some(sid),
                    ..self.win(v)
                };
                &&& post == (App { todo: post.todo, ..self.with_win(v, w) })
                &&& post.plan() == self.after_open(v, total as int) + self.plan()
            },
            Err(e) => self.says(
                post,
                if (v == FilterView::Changes || v == FilterView::Procs || v == FilterView::Outputs) && holds_text(
                    e,
                    "unknown verb"@,
                ) {
                    self.stale_text()
                } else {
                    "view.open "@ + list_name(v) + ": "@ + e
                },
            ),
        }
    }

    /// Takes in the answer to the opening of a list.
    pub fn opened(&mut self, v: FilterView, sid: i64, r: Result<Json, String>)
        ensures
            old(self).opened_v(v, sid, rep_v(r), *final(self)),
    {
        match r {
            Ok(j) => {
                let total: usize = fit_usize(j.u64_or("total", 0));
                let view: Option<u64> = j.get_u64("view_id");
                let start: usize = self.window(v).start;
                let sel: usize = self.window(v).sel;
                self.set_list(v, view, Some(sid), total, start, sel);
                let on: bool = self.view_filter(v).on;
                match v {
                    FilterView::Changes => {
                        self.first_op(Op::RefreshSummary);
                        self.first_op(Op::SeekFirst(v));
                        self.first_op(Op::Fetch(v, 0));
                    },
                    FilterView::Procs => {
                        self.first_op(Op::SeekFirst(v));
                        self.first_op(Op::Fetch(v, 0));
                    },
                    FilterView::Outputs => {
                        self.first_op(Op::Fetch(v, 0));
                    },
                    _ => {
                        if on {
                            self.first_op(Op::Fetch(v, 0));
                        } else {
                            let tail: usize = if total > WINDOW_SIZE { total - WINDOW_SIZE } else { 0 };
                            self.first_op(Op::SeekLast(v));
                            self.first_op(Op::Fetch(v, tail));
                        }
                    },
                }
                assert(self.plan() =~= old(self).after_open(v, total as int) + old(self).plan());
            },
            Err(e) => {
                let known: bool = match v {
                    FilterView::Changes | FilterView::Procs | FilterView::Outputs => true,
                    _ => false,
                };
                let s: String = if known && contains(e.as_str(), "unknown verb") {
                    own("engine doesn't speak view.* — kill the stale engine (the socket ").concat(
                        self.env.sock.as_str(),
                    ).concat(" is being answered by an old process) and run sarun again")
                } else {
                    own("view.open ").concat(name_of_list(v)).concat(": ").concat(e.as_str())
                };
                self.say(s.as_str());
            },
        }
    }
}

/// Where the cursor comes to is a row of the window behind it, or before it where it goes back,
/// and not a mere connection.
pub proof fn law_cursor_passes_over_connections(w: Win, v: FilterView, g: int, fwd: bool)
    ensures
        landing(w, v, g, fwd) matches Landing::At(i) ==> {
            &&& 0 <= i < w.rows@.len()
            &&& !(has_connectors(v) && is_connector(w.rows@, i))
            &&& if fwd { w.start + i > g } else { w.start + i < g }
        },
        landing(w, v, g, fwd) matches Landing::Outside(start, p) ==> {
            &&& 0 <= start <= p < w.total
            &&& if fwd { p > g } else { p < g }
        },
    decreases (if fwd { w.total - g } else { g }),
{
    let ng = if fwd { g + 1 } else { g - 1 };
    if 0 <= ng < w.total && w.start <= ng < w.start + w.rows@.len() && has_connectors(v) && is_connector(
        w.rows@,
        ng - w.start,
    ) {
        law_cursor_passes_over_connections(w, v, ng, fwd);
    }
}

/// A list that is opened again has its cursor on the row that it was on, where the row is still
/// in the window.
pub proof fn law_reopened_list_keeps_its_row(a: App, b: App, v: FilterView, saved: usize, n: i64, i: int)
    requires
        a.repin_v(v, saved, Some(n), b),
        0 <= i < a.win(v).rows@.len(),
        a.win(v).rows@[i]@.get_i64(App::key_of(v)) == Some(n as int),
    ensures
        b.win(v).rows == a.win(v).rows,
        b.win(v).sel < b.win(v).rows@.len(),
        b.win(v).rows@[b.win(v).sel as int]@.get_i64(App::key_of(v)) == Some(n as int),
{
    lemma_num_found(a.win(v).rows@, App::key_of(v), n as int, 0, i);
    assert(a.win(v).rows.len() == a.win(v).rows@.len());
}

proof fn lemma_num_found(rows: Seq<Json>, k: Seq<char>, n: int, from: int, i: int)
    requires
        0 <= from <= i < rows.len(),
        rows[i]@.get_i64(k) == Some(n),
    ensures
        find_num(rows, k, n, from) matches Some(j) && from <= j <= i && rows[j]@.get_i64(k) == Some(n),
    decreases i - from,
{
    if rows[from]@.get_i64(k) != Some(n) {
        lemma_num_found(rows, k, n, from + 1, i);
    }
}

/// The changes that are listed again have their cursor on the path that it was on, where the path
/// is still in the window.
pub proof fn law_reopened_changes_keep_their_path(a: App, b: App, saved: usize, p: String, i: int)
    requires
        a.repin_path_v(saved, b),
        a.diff.pin == Some(p),
        0 <= i < a.lists.changes.rows@.len(),
        a.lists.changes.rows@[i]@.get_str("path"@) == Some(p@),
    ensures
        b.lists.changes.rows == a.lists.changes.rows,
        b.lists.changes.sel < b.lists.changes.rows@.len(),
        b.lists.changes.rows@[b.lists.changes.sel as int]@.get_str("path"@) == Some(p@),
{
    lemma_str_found(a.lists.changes.rows@, "path"@, p@, 0, i);
    assert(a.lists.changes.rows.len() == a.lists.changes.rows@.len());
}

proof fn lemma_str_found(rows: Seq<Json>, k: Seq<char>, p: Seq<char>, from: int, i: int)
    requires
        0 <= from <= i < rows.len(),
        rows[i]@.get_str(k) == Some(p),
    ensures
        find_str(rows, k, p, from) matches Some(j) && from <= j <= i && rows[j]@.get_str(k) == Some(p),
    decreases i - from,
{
    if rows[from]@.get_str(k) != Some(p) {
        lemma_str_found(rows, k, p, from + 1, i);
    }
}

} // verus!
