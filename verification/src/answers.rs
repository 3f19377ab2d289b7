//! Loading the lists and taking in their rows.

use vstd::prelude::*;

use crate::app::{App, Boxes, Diff, Op, Shown, Then, Ui, WINDOW_SIZE};
#[allow(unused_imports)]
use crate::app::StepV;
use crate::json::{list1, list2, Json};
#[allow(unused_imports)]
use crate::json::{jvs, JV};
use crate::lists::{fit_usize, name_of_list};
#[allow(unused_imports)]
use crate::lists::{fit, less_one, list_name, minus, rep_v, smaller};
#[allow(unused_imports)]
use crate::outside::{base64_bytes, lossy_text};
use crate::text::{own, same};
use crate::types::{FilterView, StructState, Win};

verus! {

/// The kind of a change, and whether it is stale, as it is known of each row of the window.
pub open spec fn decor_v(v: Seq<(String, bool)>) -> Seq<(Seq<char>, bool)> {
    v.map_values(|p: (String, bool)| (p.0@, p.1))
}

/// A change that the engine can tell more of.
pub open spec fn decoratable(r: JV) -> bool {
    &&& !r.flag("connector"@)
    &&& r.get_str("kind"@) != Some("xattr"@)
    &&& r.get_str("kind"@) != Some("xattr-only"@)
}

pub fn is_decoratable(r: &Json) -> (b: bool)
    ensures
        b == decoratable(r@),
{
    if r.flag("connector") {
        return false;
    }
    match r.get_str("kind") {
        Some(k) => !same(k, "xattr") && !same(k, "xattr-only"),
        None => true,
    }
}

/// The paths of the changes that the engine can tell more of.
pub open spec fn leaf_paths(rows: Seq<JV>) -> Seq<JV>
    decreases rows.len(),
{
    if rows.len() == 0 {
        Seq::empty()
    } else {
        let before = leaf_paths(rows.drop_last());
        let r = rows.last();
        match r.get_str("path"@) {
            Some(p) => if decoratable(r) { before.push(JV::Str(p)) } else { before },
            None => before,
        }
    }
}

pub fn collect_leaf_paths(rows: &Vec<Json>) -> (r: Vec<Json>)
    ensures
        jvs(r@) == leaf_paths(jvs(rows@)),
{
    let mut out: Vec<Json> = Vec::new();
    let mut i: usize = 0;
    assert(jvs(out@) =~= leaf_paths(jvs(rows@).take(0)));
    while i < rows.len()
        invariant
            i <= rows@.len(),
            jvs(out@) == leaf_paths(jvs(rows@).take(i as int)),
        decreases rows@.len() - i,
    {
        let ghost t = jvs(rows@).take(i + 1);
        assert(t.drop_last() == jvs(rows@).take(i as int));
        assert(t.last() == rows@[i as int]@);
        let ghost before = jvs(out@);
        if is_decoratable(&rows[i]) {
            match rows[i].get_str("path") {
                Some(p) => {
                    out.push(Json::text(p));
                    assert(jvs(out@) =~= before.push(JV::Str(p@)));
                },
                None => {},
            }
        }
        i += 1;
    }
    assert(jvs(rows@).take(rows@.len() as int) == jvs(rows@));
    out
}

/// How many of the first `n` rows the engine can tell more of.
pub open spec fn leaves_before(rows: Seq<JV>, n: int) -> int
    decreases n,
{
    if n <= 0 {
        0
    } else {
        leaves_before(rows, n - 1) + if decoratable(rows[n - 1]) { 1int } else { 0 }
    }
}

/// What the engine tells of the row `i`: the answers come in the order of the rows that it can
/// tell more of.
pub open spec fn decor_of(rows: Seq<JV>, decs: Seq<JV>, i: int, before: (Seq<char>, bool)) -> (Seq<char>, bool) {
    let di = leaves_before(rows, i);
    if decoratable(rows[i]) && di < decs.len() {
        (decs[di].str_or("kind"@, "changed"@), decs[di].flag("stale"@))
    } else {
        before
    }
}

/// The text of an output.
pub open spec fn output_text(r: Result<JV, Seq<char>>) -> Seq<char> {
    match r {
        Ok(j) => match j.get("content"@) {
            Some(c) => match c.get_str("__b"@) {
                Some(b) => match base64_bytes(b) {
                    Some(bytes) => lossy_text(bytes),
                    None => Seq::empty(),
                },
                None => Seq::empty(),
            },
            None => Seq::empty(),
        },
        Err(_) => Seq::empty(),
    }
}

/// The number, the stream and the text of each output.
pub open spec fn segs_v(v: Seq<(i64, i64, String)>) -> Seq<(i64, i64, Seq<char>)> {
    v.map_values(|s: (i64, i64, String)| (s.0, s.1, s.2@))
}

/// The calls for the bytes of the outputs from row `i` on.
pub open spec fn output_calls(sid: Seq<char>, rows: Seq<JV>, i: int) -> Seq<StepV>
    decreases rows.len() - i,
{
    if i >= rows.len() || i < 0 {
        Seq::empty()
    } else {
        let oid = rows[i].i64_or("id"@, -1);
        let stream = rows[i].i64_or("stream"@, 0);
        seq![
            StepV::Call(
                "output_detail"@,
                seq![JV::Str(sid), JV::Int(oid)],
                Then::Output(oid as i64, stream as i64),
            ),
        ] + output_calls(sid, rows, i + 1)
    }
}

/// A structural diff of which nothing is known any more.
pub open spec fn cancelled(old: StructState, new: StructState) -> bool {
    &&& new.generation == (if old.generation == u64::MAX { 0u64 } else { (old.generation + 1) as u64 })
    &&& new.job is None
    &&& !new.pending
    &&& new.quick_lines@.len() == 0
    &&& new.full_lines is None
    &&& new.hex_lines@.len() == 0
    &&& new.header@.len() == 0
    &&& new.spin == old.spin
}

impl App {
    /// The call that ends a structural diff that is being made.
    pub open spec fn cancelling(self) -> Seq<StepV> {
        match self.diff.structd.job {
            Some(job) => seq![StepV::Call("struct_cancel"@, seq![JV::Int(job as int)], Then::Ignore)],
            None => Seq::empty(),
        }
    }

    /// Drops the structural diff, and what is still to come of it.
    pub fn cancel_struct(&mut self)
        ensures
            final(self).plan() == old(self).cancelling() + old(self).plan(),
            cancelled(old(self).diff.structd, final(self).diff.structd),
            *final(self) == (App {
                diff: (Diff { structd: final(self).diff.structd, waiting: false, ..old(self).diff }),
                todo: final(self).todo,
                ..*old(self)
            }),
    {
        let generation: u64 = self.diff.structd.generation;
        let spin: usize = self.diff.structd.spin;
        let job: Option<i64> = self.diff.structd.job;
        self.diff.structd = StructState {
            generation: if generation == u64::MAX { 0 } else { generation + 1 },
            job: None,
            quick_lines: Vec::new(),
            full_lines: None,
            spin,
            pending: false,
            hex_lines: Vec::new(),
            header: Vec::new(),
        };
        self.diff.waiting = false;
        match job {
            Some(j) => {
                self.first_call("struct_cancel", list1(Json::Int(j)), Then::Ignore);
            },
            None => {
                assert(self.plan() =~= Seq::<StepV>::empty() + self.plan());
            },
        }
    }

    /// The rows of a list that was opened anew are gone; the cursor is at its beginning.
    pub open spec fn emptied(self, v: FilterView) -> Win {
        Win { view: None, total: 0, start: 0, sel: 0, ..self.win(v) }
    }

    /// The calls with which a list is loaded.
    pub open spec fn loading(self, v: FilterView) -> Seq<StepV> {
        self.closing(v) + (if v == FilterView::Changes { self.cancelling() } else { Seq::empty() }) + (
        match self.sid_num() {
            Some(sid) => seq![
                StepV::Call("view.open"@, self.open_args(v), Then::Opened(v, sid as i64)),
            ],
            None => Seq::empty(),
        })
    }

    /// What loading a list changes besides the plan.
    pub open spec fn load_v(self, v: FilterView, post: App) -> bool {
        let base = self.with_win(v, (Win { rows: post.win(v).rows, ..self.emptied(v) }));
        &&& post.win(v).rows@.len() == 0
        &&& post.plan() == self.loading(v) + self.plan()
        &&& match v {
            FilterView::Changes => {
                &&& cancelled(self.diff.structd, post.diff.structd)
                &&& post == (App {
                    diff: (Diff {
                        hunks: Json::Null,
                        hunk_scroll: 0,
                        sel_hunk: 0,
                        structd: post.diff.structd,
                        waiting: false,
                        ..self.diff
                    }),
                    todo: post.todo,
                    ..base
                })
            },
            FilterView::Procs => post == (App { todo: post.todo, ..base }),
            FilterView::Outputs => {
                &&& post.shown.output_segs@.len() == 0
                &&& post == (App {
                    shown: (Shown { output_segs: post.shown.output_segs, ..self.shown }),
                    ui: (Ui { out_scroll: 0, ..self.ui }),
                    todo: post.todo,
                    ..base
                })
            },
            FilterView::Pipelines => {
                &&& post.shown.pipelines_flat@.len() == 0
                &&& post == (App {
                    shown: (Shown { pipelines_flat: post.shown.pipelines_flat, ..self.shown }),
                    todo: post.todo,
                    ..base
                })
            },
            FilterView::BuildEdges => {
                &&& post.shown.edges_flat@.len() == 0
                &&& post == (App {
                    shown: (Shown { edges_flat: post.shown.edges_flat, ..self.shown }),
                    todo: post.todo,
                    ..base
                })
            },
        }
    }

    /// What is forgotten of a list, besides its window, when it is loaded.
    spec fn forgotten_v(self, v: FilterView, post: App) -> bool {
        &&& post.plan() == (if v == FilterView::Changes { self.cancelling() } else { Seq::empty() }) + self.plan()
        &&& match v {
            FilterView::Changes => {
                &&& cancelled(self.diff.structd, post.diff.structd)
                &&& post == (App {
                    diff: (Diff {
                        hunks: Json::Null,
                        hunk_scroll: 0,
                        sel_hunk: 0,
                        structd: post.diff.structd,
                        waiting: false,
                        ..self.diff
                    }),
                    todo: post.todo,
                    ..self
                })
            },
            FilterView::Procs => post == (App { todo: post.todo, ..self }),
            FilterView::Outputs => {
                &&& post.shown.output_segs@.len() == 0
                &&& post == (App {
                    shown: (Shown { output_segs: post.shown.output_segs, ..self.shown }),
                    ui: (Ui { out_scroll: 0, ..self.ui }),
                    todo: post.todo,
                    ..self
                })
            },
            FilterView::Pipelines => {
                &&& post.shown.pipelines_flat@.len() == 0
                &&& post == (App {
                    shown: (Shown { pipelines_flat: post.shown.pipelines_flat, ..self.shown }),
                    todo: post.todo,
                    ..self
                })
            },
            FilterView::BuildEdges => {
                &&& post.shown.edges_flat@.len() == 0
                &&& post == (App {
                    shown: (Shown { edges_flat: post.shown.edges_flat, ..self.shown }),
                    todo: post.todo,
                    ..self
                })
            },
        }
    }

    fn forget(&mut self, v: FilterView)
        ensures
            old(self).forgotten_v(v, *final(self)),
    {
        match v {
            FilterView::Changes => {
                self.cancel_struct();
                self.diff.hunks = Json::Null;
                self.diff.hunk_scroll = 0;
                self.diff.sel_hunk = 0;
            },
            FilterView::Procs => {},
            FilterView::Outputs => {
                self.shown.output_segs = Vec::new();
                self.ui.out_scroll = 0;
            },
            FilterView::Pipelines => {
                self.shown.pipelines_flat = Vec::new();
            },
            FilterView::BuildEdges => {
                self.shown.edges_flat = Vec::new();
            },
        }
        assert(self.plan() =~= (if v == FilterView::Changes { old(self).cancelling() } else { Seq::empty() })
            + old(self).plan());
    }

    /// Loads a list of the box at the cursor.
    #[verifier::rlimit(40)]
    pub fn load_list(&mut self, v: FilterView)
        ensures
            old(self).load_v(v, *final(self)),
    {
        let ghost orig = *self;
        let sid: Option<i64> = self.cur_sid_i64();
        let view: Option<u64> = self.window(v).view;
        let keep: Option<i64> = self.window(v).sid;
        match sid {
            Some(n) => {
                self.first_open(v, n, Then::Opened(v, n));
            },
            None => {},
        }
        self.forget(v);
        self.first_close(view);
        assert(self.plan() =~= orig.loading(v) + orig.plan());
        self.set_list(v, None, keep, 0, 0, 0);
        self.set_rows(v, Vec::new());
    }

    /// The list that is shown is not the one of the box at the cursor.
    pub open spec fn outdated(self, v: FilterView) -> bool {
        match self.sid_num() {
            Some(n) => match self.win(v).sid {
                Some(m) => m as int != n,
                None => true,
            },
            None => true,
        }
    }

    /// The change that `load_list_if_needed` makes.
    pub open spec fn load_list_if_needed_v(self, v: FilterView, post: App) -> bool {
        &&& (self.outdated(v) ==> self.load_v(v, post))
        &&& (!self.outdated(v) ==> post == self)
    }

    /// Loads a list unless it is the one of the box at the cursor already.
    pub fn load_list_if_needed(&mut self, v: FilterView)
        ensures
            old(self).load_list_if_needed_v(v, *final(self)),
    {
        let cur: Option<i64> = self.cur_sid_i64();
        let have: Option<i64> = self.window(v).sid;
        let fresh: bool = match (cur, have) {
            (Some(n), Some(m)) => n == m,
            _ => false,
        };
        if !fresh {
            self.load_list(v);
        }
    }

    /// The number of the row at the cursor of a list.
    pub open spec fn pinned(self, v: FilterView) -> Option<i64> {
        let w = self.win(v);
        if w.sel < w.rows@.len() {
            match w.rows@[w.sel as int]@.get_i64(App::key_of(v)) {
                Some(n) => Some(n as i64),
                None => None,
            }
        } else {
            None
        }
    }

    fn row_number(&self, v: FilterView) -> (r: Option<i64>)
        ensures
            r == self.pinned(v),
    {
        let w: &Win = self.window(v);
        if w.sel < w.rows.len() {
            w.rows[w.sel].get_i64(if v == FilterView::Procs { "rid" } else { "id" })
        } else {
            None
        }
    }

    /// The steps with which a list is opened again with the cursor on its row.
    pub open spec fn refreshing(self, v: FilterView) -> Seq<StepV> {
        let w = self.win(v);
        match self.sid_num() {
            Some(_) => self.closing(v) + seq![
                StepV::Call(
                    "view.open"@,
                    self.open_args(v),
                    Then::Reopened(v, w.start, w.sel, if v == FilterView::Changes || v == FilterView::BuildEdges {
                        None
                    } else {
                        self.pinned(v)
                    }),
                ),
            ],
            None => if v == FilterView::Pipelines || v == FilterView::BuildEdges {
                Seq::empty()
            } else {
                self.closing(v)
            },
        }
    }

    /// What opening a list again changes.
    pub open spec fn refresh_v(self, v: FilterView, post: App) -> bool {
        let closed = self.sid_num() is Some || !(v == FilterView::Pipelines || v == FilterView::BuildEdges);
        &&& post.plan() == self.refreshing(v) + self.plan()
        &&& post == (App {
            diff: (Diff { pin: post.diff.pin, ..self.diff }),
            todo: post.todo,
            ..(if closed { self.with_win(v, (Win { view: None, ..self.win(v) })) } else { self })
        })
        &&& if v == FilterView::Changes {
            match post.diff.pin {
                Some(p) => self.change_path() == Some(p@),
                None => self.change_path() is None,
            }
        } else {
            post.diff.pin == self.diff.pin
        }
    }

    /// Opens a list again, so that what is new in it shows, with the cursor on its row.
    pub fn refresh_list(&mut self, v: FilterView)
        ensures
            old(self).refresh_v(v, *final(self)),
    {
        let ghost orig = *self;
        let sid: Option<i64> = self.cur_sid_i64();
        let view: Option<u64> = self.window(v).view;
        let start: usize = self.window(v).start;
        let sel: usize = self.window(v).sel;
        let total: usize = self.window(v).total;
        let have: Option<i64> = self.window(v).sid;
        let pin: Option<i64> = match v {
            FilterView::Changes | FilterView::BuildEdges => None,
            _ => self.row_number(v),
        };
        let tail: bool = match v {
            FilterView::Pipelines | FilterView::BuildEdges => true,
            _ => false,
        };
        if v == FilterView::Changes {
            let p: Option<String> = match self.cur_change_path() {
                Some(s) => Some(own(s)),
                None => None,
            };
            self.diff.pin = p;
        }
        assert(self.open_args(v) == orig.open_args(v));
        match sid {
            Some(n) => {
                self.first_open(v, n, Then::Reopened(v, start, sel, pin));
                self.first_close(view);
                self.set_list(v, None, have, total, start, sel);
            },
            None => {
                if !tail {
                    self.first_close(view);
                    self.set_list(v, None, have, total, start, sel);
                }
            },
        }
        assert(self.plan() =~= orig.refreshing(v) + orig.plan());
    }

    /// The first row of the window that is fetched when a list was opened again.
    pub open spec fn again_from(self, v: FilterView, total: int, start: int) -> int {
        match v {
            FilterView::Pipelines => {
                let tail = if self.filter(v).on { 0 } else { minus(total, WINDOW_SIZE as int) };
                if start >= tail { start } else { tail }
            },
            FilterView::BuildEdges => start,
            _ => smaller(start, less_one(total)),
        }
    }

    /// What the answer to the opening of a list again changes.
    pub open spec fn reopened_v(
        self,
        v: FilterView,
        start: usize,
        sel: usize,
        pin: Option<i64>,
        r: Result<JV, Seq<char>>,
        post: App,
    ) -> bool {
        match r {
            Ok(j) => {
                let total = fit(j.u64_or("total"@, 0));
                let w = Win {
                    view: match j.get_u64("view_id"@) {
                        Some(n) => Some(n as u64),
                        None => None,
                    },
                    total,
                    sid: match self.sid_num() {
                        Some(n) => if v == FilterView::Pipelines || v == FilterView::BuildEdges {
                            Some(n as i64)
                        } else {
                            self.win(v).sid
                        },
                        None => self.win(v).sid,
                    },
                    ..self.win(v)
                };
                &&& post == (App { todo: post.todo, ..self.with_win(v, w) })
                &&& post.plan() == seq![
                    StepV::Op(Op::Fetch(v, self.again_from(v, total as int, start as int) as usize)),
                    if v == FilterView::Changes {
                        StepV::Op(Op::RepinPath(sel))
                    } else {
                        StepV::Op(Op::Repin(v, sel, pin))
                    },
                ] + self.plan()
            },
            Err(e) => self.says(post, "view.open "@ + list_name(v) + ": "@ + e),
        }
    }

    /// Takes in the answer to the opening of a list again.
    pub fn reopened(&mut self, v: FilterView, start: usize, sel: usize, pin: Option<i64>, r: Result<Json, String>)
        ensures
            old(self).reopened_v(v, start, sel, pin, rep_v(r), *final(self)),
    {
        match r {
            Ok(j) => {
                let total: usize = fit_usize(j.u64_or("total", 0));
                let view: Option<u64> = j.get_u64("view_id");
                let at: usize = self.window(v).start;
                let cursor: usize = self.window(v).sel;
                let cur: Option<i64> = self.cur_sid_i64();
                let have: Option<i64> = self.window(v).sid;
                let sid: Option<i64> = match v {
                    FilterView::Pipelines | FilterView::BuildEdges => match cur {
                        Some(n) => Some(n),
                        None => have,
                    },
                    _ => have,
                };
                let on: bool = self.view_filter(v).on;
                let last: usize = if total > 0 { total - 1 } else { 0 };
                let from: usize = match v {
                    FilterView::Pipelines => {
                        let tail: usize = if on || total <= WINDOW_SIZE { 0 } else { total - WINDOW_SIZE };
                        if start >= tail { start } else { tail }
                    },
                    FilterView::BuildEdges => start,
                    _ => if start <= last { start } else { last },
                };
                self.set_list(v, view, sid, total, at, cursor);
                if v == FilterView::Changes {
                    self.first_op(Op::RepinPath(sel));
                } else {
                    self.first_op(Op::Repin(v, sel, pin));
                }
                let ghost mid = self.plan();
                self.first_op(Op::Fetch(v, from));
                assert(self.plan() =~= seq![
                    StepV::Op(Op::Fetch(v, from)),
                    if v == FilterView::Changes {
                        StepV::Op(Op::RepinPath(sel))
                    } else {
                        StepV::Op(Op::Repin(v, sel, pin))
                    },
                ] + old(self).plan());
            },
            Err(e) => {
                let s: String = own("view.open ").concat(name_of_list(v)).concat(": ").concat(e.as_str());
                self.say(s.as_str());
            },
        }
    }

    /// What asking for what the engine tells of the box at the cursor changes.
    pub open spec fn recent_v(self, post: App) -> bool {
        match self.sid() {
            Some(sid) => {
                &&& post == (App { boxes: (Boxes { summary: Json::Null, ..self.boxes }), todo: post.todo, ..self })
                &&& post.plan() == seq![
                    StepV::Call("review.box_summary"@, seq![JV::Str(sid), JV::Int(40)], Then::Summary),
                ] + self.plan()
            },
            None => post == self,
        }
    }

    /// Asks for what the engine tells of the box at the cursor.
    pub fn refresh_recent_changes(&mut self)
        ensures
            old(self).recent_v(*final(self)),
    {
        let sid: Option<String> = match self.cur_sid() {
            Some(s) => Some(own(s)),
            None => None,
        };
        match sid {
            Some(s) => {
                self.boxes.summary = Json::Null;
                self.first_call("review.box_summary", list2(Json::Str(s), Json::Int(40)), Then::Summary);
            },
            None => {},
        }
    }

    /// The change that `summary` makes.
    pub open spec fn summary_v(self, r: Result<Json, String>, post: App) -> bool {
        match rep_v(r) {
                Ok(j) => {
                    &&& post.boxes.summary@ == j
                    &&& post == (App {
                        boxes: (Boxes { summary: post.boxes.summary, ..self.boxes }),
                        ..self
                    })
                },
                Err(_) => post == self,
            }
    }

    /// Takes in what the engine tells of the box.
    pub fn summary(&mut self, r: Result<Json, String>)
        ensures
            old(self).summary_v(r, *final(self)),
    {
        match r {
            Ok(j) => {
                self.boxes.summary = j;
            },
            Err(_) => {},
        }
    }
}

} // verus!
