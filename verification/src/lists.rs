//! The lists that the engine keeps and the client shows a window of: opening them, fetching
//! windows, filtering them, and moving the cursor over them.

use vstd::prelude::*;

use crate::app::{App, Lists, Then, WINDOW_SIZE};
#[allow(unused_imports)]
use crate::app::StepV;
use crate::fmt::edge_running;
#[allow(unused_imports)]
use crate::fmt::building;
use crate::json::{copy_all, list1, list3, list4, Json};
#[allow(unused_imports)]
use crate::json::{jvs, JV};
use crate::rules::{Clause, Join, Match};
#[allow(unused_imports)]
use crate::rules::{clauses, ClauseV};
use crate::text::{own, same};
use crate::tree::build_pipeline_tree;
#[allow(unused_imports)]
use crate::tree::tree_rows;
use crate::types::{arr, clauses_to_json, filter_to_json, FilterView, Win};
#[allow(unused_imports)]
use crate::types::{clause_json, clauses_json, filter_json};

verus! {

/// What came of a call to the engine.
pub open spec fn rep_v(r: Result<Json, String>) -> Result<JV, Seq<char>> {
    match r {
        Ok(j) => Ok(j@),
        Err(e) => Err(e@),
    }
}

/// What the engine sent back for a call: its result, or why it failed.
pub open spec fn reply_v(rep: JV, fallback: Seq<char>) -> Result<JV, Seq<char>> {
    if rep.flag("ok"@) {
        Ok(
            match rep.get("r"@) {
                Some(v) => v,
                None => JV::Null,
            },
        )
    } else {
        Err(rep.str_or("error"@, fallback))
    }
}

/// Reads what the engine sent back for a call.
pub fn read_reply(rep: &Json, fallback: &str) -> (r: Result<Json, String>)
    ensures
        rep_v(r) == reply_v(rep@, fallback@),
{
    if rep.flag("ok") {
        match rep.get("r") {
            Some(v) => Ok(v.copy()),
            None => Ok(Json::Null),
        }
    } else {
        Err(own(rep.str_or("error", fallback)))
    }
}

/// The engine's name for a list.
pub open spec fn list_name(v: FilterView) -> Seq<char> {
    match v {
        FilterView::Changes => "changes"@,
        FilterView::Procs => "procs"@,
        FilterView::Outputs => "outputs"@,
        FilterView::Pipelines => "pipelines"@,
        FilterView::BuildEdges => "build_edges"@,
    }
}

pub fn name_of_list(v: FilterView) -> (r: &'static str)
    ensures
        r@ == list_name(v),
{
    match v {
        FilterView::Changes => "changes",
        FilterView::Procs => "procs",
        FilterView::Outputs => "outputs",
        FilterView::Pipelines => "pipelines",
        FilterView::BuildEdges => "build_edges",
    }
}

/// The row is a mere connection between others, which the cursor passes over.
pub open spec fn is_connector(rows: Seq<Json>, i: int) -> bool {
    0 <= i < rows.len() && rows[i]@.flag("connector"@)
}

/// The list has rows that the cursor passes over.
pub open spec fn has_connectors(v: FilterView) -> bool {
    v == FilterView::Changes || v == FilterView::Procs
}

/// The first row at or behind `i` that is not a mere connection; 0 if there is none.
pub open spec fn first_real(rows: Seq<Json>, i: int) -> int
    decreases rows.len() - i,
{
    if i >= rows.len() {
        0
    } else if !rows[i]@.flag("connector"@) {
        i
    } else {
        first_real(rows, i + 1)
    }
}

/// The first row from `i` on whose member `k` is the text `p`.
pub open spec fn find_str(rows: Seq<Json>, k: Seq<char>, p: Seq<char>, i: int) -> Option<int>
    decreases rows.len() - i,
{
    if i >= rows.len() || i < 0 {
        None
    } else if rows[i]@.get_str(k) == Some(p) {
        Some(i)
    } else {
        find_str(rows, k, p, i + 1)
    }
}

/// The first row from `i` on whose member `k` is the number `n`.
pub open spec fn find_num(rows: Seq<Json>, k: Seq<char>, n: int, i: int) -> Option<int>
    decreases rows.len() - i,
{
    if i >= rows.len() || i < 0 {
        None
    } else if rows[i]@.get_i64(k) == Some(n) {
        Some(i)
    } else {
        find_num(rows, k, n, i + 1)
    }
}

pub fn position_str(rows: &Vec<Json>, k: &str, p: &str) -> (r: Option<usize>)
    ensures
        match r {
            Some(i) => find_str(rows@, k@, p@, 0) == Some(i as int) && i < rows@.len(),
            None => find_str(rows@, k@, p@, 0) is None,
        },
{
    let mut i: usize = 0;
    while i < rows.len()
        invariant
            i <= rows@.len(),
            find_str(rows@, k@, p@, 0) == find_str(rows@, k@, p@, i as int),
        decreases rows@.len() - i,
    {
        match rows[i].get_str(k) {
            Some(s) => {
                if same(s, p) {
                    return Some(i);
                }
            },
            None => {},
        }
        i += 1;
    }
    None
}

pub fn position_num(rows: &Vec<Json>, k: &str, n: i64) -> (r: Option<usize>)
    ensures
        match r {
            Some(i) => find_num(rows@, k@, n as int, 0) == Some(i as int) && i < rows@.len(),
            None => find_num(rows@, k@, n as int, 0) is None,
        },
{
    let mut i: usize = 0;
    while i < rows.len()
        invariant
            i <= rows@.len(),
            find_num(rows@, k@, n as int, 0) == find_num(rows@, k@, n as int, i as int),
        decreases rows@.len() - i,
    {
        match rows[i].get_i64(k) {
            Some(m) => {
                if m == n {
                    return Some(i);
                }
            },
            None => {},
        }
        i += 1;
    }
    None
}

/// A count of the engine's as a count of this machine's.
pub open spec fn fit(n: int) -> usize {
    if n <= usize::MAX { n as usize } else { usize::MAX }
}

pub fn fit_usize(n: u64) -> (r: usize)
    ensures
        r == fit(n as int),
{
    if n <= usize::MAX as u64 {
        n as usize
    } else {
        usize::MAX
    }
}

/// One less, but not below zero.
pub open spec fn less_one(n: int) -> int {
    if n > 0 { n - 1 } else { 0 }
}

/// `a - b`, but not below zero.
pub open spec fn minus(a: int, b: int) -> int {
    if a > b { a - b } else { 0 }
}

/// The smaller of two numbers.
pub open spec fn smaller(a: int, b: int) -> int {
    if a <= b { a } else { b }
}

/// The filter that is sent for a list: its clauses, and one for errors while only errors are
/// shown and the list knows them.
pub open spec fn err_clause() -> JV {
    clause_json(
        ClauseV { kind: "err"@, pattern: "1"@, join: Join::And, negate: false, enabled: true },
    )
}

/// The lists that can be narrowed to errors.
pub open spec fn knows_errors(v: FilterView) -> bool {
    v == FilterView::Outputs || v == FilterView::Pipelines || v == FilterView::BuildEdges
}

/// The rows that a pipeline list shows of those that it was sent.
pub open spec fn unfinished(rows: Seq<JV>) -> Seq<JV>
    decreases rows.len(),
{
    if rows.len() == 0 {
        Seq::empty()
    } else if rows.last().num_at("done_ts"@).is_zero() {
        unfinished(rows.drop_last()).push(rows.last())
    } else {
        unfinished(rows.drop_last())
    }
}

/// The rows of a list of build edges that are being built.
pub open spec fn being_built(rows: Seq<JV>) -> Seq<JV>
    decreases rows.len(),
{
    if rows.len() == 0 {
        Seq::empty()
    } else if building(rows.last()) {
        being_built(rows.drop_last()).push(rows.last())
    } else {
        being_built(rows.drop_last())
    }
}

/// The cursor, taken back to the last row of a list that has become shorter.
pub open spec fn within(sel: int, n: int) -> int {
    if n > 0 && sel >= n { n - 1 } else { sel }
}

impl Lists {
    /// The lists with another window of one of them.
    pub open spec fn with(self, v: FilterView, w: Win) -> Lists {
        match v {
            FilterView::Changes => Lists { changes: w, ..self },
            FilterView::Procs => Lists { processes: w, ..self },
            FilterView::Outputs => Lists { outputs: w, ..self },
            FilterView::Pipelines => Lists { pipelines: w, ..self },
            FilterView::BuildEdges => Lists { edges: w, ..self },
        }
    }

    /// Puts the cursor of a list on a row of its window.
    fn set_sel(&mut self, v: FilterView, i: usize)
        ensures
            *final(self) == old(self).with(v, (Win { sel: i, ..old(self).win(v) })),
    {
        match v {
            FilterView::Changes => {
                self.changes.sel = i;
            },
            FilterView::Procs => {
                self.processes.sel = i;
            },
            FilterView::Outputs => {
                self.outputs.sel = i;
            },
            FilterView::Pipelines => {
                self.pipelines.sel = i;
            },
            FilterView::BuildEdges => {
                self.edges.sel = i;
            },
        }
    }

    /// Replaces the window of a list.
    fn set(&mut self, v: FilterView, w: Win)
        ensures
            *final(self) == old(self).with(v, w),
    {
        match v {
            FilterView::Changes => {
                self.changes = w;
            },
            FilterView::Procs => {
                self.processes = w;
            },
            FilterView::Outputs => {
                self.outputs = w;
            },
            FilterView::Pipelines => {
                self.pipelines = w;
            },
            FilterView::BuildEdges => {
                self.edges = w;
            },
        }
    }

    /// Takes the rows of a window out of it.
    pub(crate) fn take_rows(&mut self, v: FilterView) -> (r: Vec<Json>)
        ensures
            r == old(self).win(v).rows,
            final(self).win(v) == (Win { rows: final(self).win(v).rows, ..old(self).win(v) }),
            *final(self) == old(self).with(v, final(self).win(v)),
    {
        let mut r: Vec<Json> = Vec::new();
        match v {
            FilterView::Changes => {
                std::mem::swap(&mut r, &mut self.changes.rows);
            },
            FilterView::Procs => {
                std::mem::swap(&mut r, &mut self.processes.rows);
            },
            FilterView::Outputs => {
                std::mem::swap(&mut r, &mut self.outputs.rows);
            },
            FilterView::Pipelines => {
                std::mem::swap(&mut r, &mut self.pipelines.rows);
            },
            FilterView::BuildEdges => {
                std::mem::swap(&mut r, &mut self.edges.rows);
            },
        }
        r
    }
}

impl App {
    /// The state with another window of a list.
    pub open spec fn with_win(self, v: FilterView, w: Win) -> App {
        App { lists: self.lists.with(v, w), ..self }
    }

    /// Puts the cursor of a list on a row of its window.
    pub fn set_sel(&mut self, v: FilterView, i: usize)
        ensures
            *final(self) == old(self).with_win(v, (Win { sel: i, ..old(self).win(v) })),
    {
        self.lists.set_sel(v, i);
    }

    /// Sets where a list stands: the engine's number for it, its box, its length, the window, the
    /// cursor.
    pub(crate) fn set_list(&mut self, v: FilterView, view: Option<u64>, sid: Option<i64>, total: usize, start: usize, sel: usize)
        ensures
            *final(self) == old(self).with_win(
                v,
                (Win { view, sid, total, start, sel, ..old(self).win(v) }),
            ),
    {
        let rows: Vec<Json> = self.lists.take_rows(v);
        self.lists.set(v, Win { rows, view, sid, total, start, sel });
    }

    /// Replaces the rows of a window.
    pub(crate) fn set_rows(&mut self, v: FilterView, rows: Vec<Json>)
        ensures
            *final(self) == old(self).with_win(v, (Win { rows, ..old(self).win(v) })),
    {
        let w: &Win = self.window(v);
        let n: Win = Win { rows, view: w.view, sid: w.sid, total: w.total, start: w.start, sel: w.sel };
        self.lists.set(v, n);
    }

    /// The filter of a list as the engine is sent it when the list is opened.
    pub open spec fn open_filter(self, v: FilterView) -> JV {
        filter_json(if self.filter(v)@.is_active() { Some(self.filter(v)@.clauses) } else { None })
    }

    fn open_filter_json(&self, v: FilterView) -> (r: Json)
        ensures
            r@ == self.open_filter(v),
    {
        filter_to_json(self.view_filter(v).active())
    }

    /// The filter of a list as the engine is sent it when the filter changes.
    pub open spec fn sent_filter(self, v: FilterView) -> JV {
        if self.shown.err_only && knows_errors(v) {
            JV::Arr(
                (if self.filter(v)@.is_active() { clauses_json(self.filter(v)@.clauses) } else { Seq::empty() }).push(
                    err_clause(),
                ),
            )
        } else {
            self.open_filter(v)
        }
    }

    /// The filter of a list, with the one for errors where it is asked for.
    pub fn filter_json_for(&self, v: FilterView) -> (r: Json)
        ensures
            r@ == self.sent_filter(v),
    {
        let known: bool = match v {
            FilterView::Outputs | FilterView::Pipelines | FilterView::BuildEdges => true,
            _ => false,
        };
        if self.shown.err_only && known {
            let mut out: Vec<Json> = match self.view_filter(v).active() {
                Some(cs) => clauses_to_json(cs),
                None => Vec::new(),
            };
            let ghost before = jvs(out@);
            assert(!self.filter(v)@.is_active() ==> before =~= Seq::<JV>::empty());
            let c: Clause = Clause {
                m: Match { kind: own("err"), pattern: own("1") },
                join: Join::And,
                negate: false,
                enabled: true,
            };
            out.push(crate::types::clause_to_json(&c));
            assert(jvs(out@) =~= before.push(err_clause()));
            arr(out)
        } else {
            self.open_filter_json(v)
        }
    }

    /// The calls that close a list.
    pub open spec fn closing(self, v: FilterView) -> Seq<StepV> {
        match self.win(v).view {
            Some(id) => seq![StepV::Call("view.close"@, seq![JV::Int(id as int)], Then::Ignore)],
            None => Seq::empty(),
        }
    }

    /// The arguments with which a list is opened.
    pub open spec fn open_args(self, v: FilterView) -> Seq<JV> {
        let base = seq![JV::Str(list_name(v)), JV::Int(self.sid_num()->0), self.open_filter(v)];
        if v == FilterView::Procs { base.push(JV::Bool(self.shown.proc_running_only)) } else { base }
    }

    pub(crate) fn first_open(&mut self, v: FilterView, sid: i64, then: Then)
        requires
            old(self).sid_num() == Some(sid as int),
        ensures
            final(self).plan() == seq![StepV::Call("view.open"@, old(self).open_args(v), then)] + old(self).plan(),
            *final(self) == (App { todo: final(self).todo, ..*old(self) }),
    {
        let f: Json = self.open_filter_json(v);
        let name: Json = Json::text(name_of_list(v));
        let args: Vec<Json> = if v == FilterView::Procs {
            let run: bool = self.shown.proc_running_only;
            list4(name, Json::Int(sid), f, Json::Bool(run))
        } else {
            list3(name, Json::Int(sid), f)
        };
        assert(jvs(args@) =~= self.open_args(v));
        self.first_call("view.open", args, then);
    }

    /// Puts the call that closes a list before all other steps.
    pub(crate) fn first_close(&mut self, view: Option<u64>)
        ensures
            final(self).plan() == (match view {
                Some(id) => seq![StepV::Call("view.close"@, seq![JV::Int(id as int)], Then::Ignore)],
                None => Seq::empty(),
            }) + old(self).plan(),
            *final(self) == (App { todo: final(self).todo, ..*old(self) }),
    {
        match view {
            Some(id) => {
                self.first_call("view.close", list1(Json::whole(id)), Then::Ignore);
            },
            None => {
                assert(self.plan() =~= Seq::<StepV>::empty() + self.plan());
            },
        }
    }

    /// The change that `fetch_window` makes.
    pub open spec fn fetch_window_v(self, v: FilterView, start: usize, post: App) -> bool {
        &&& (post == (App { todo: post.todo, ..self }))
        &&& (match self.win(v).view {
                Some(id) => {
                    let at = smaller(start as int, less_one(self.win(v).total as int));
                    post.plan() == seq![
                        StepV::Call(
                            "view.window"@,
                            seq![JV::Int(id as int), JV::Int(at), JV::Int(WINDOW_SIZE as int)],
                            Then::Window(v, at as usize),
                        ),
                    ] + self.plan()
                },
                None => post.plan() == self.plan(),
            })
    }

    /// Asks for the window of a list that begins at a row, or at the last row before it.
    pub fn fetch_window(&mut self, v: FilterView, start: usize)
        ensures
            old(self).fetch_window_v(v, start, *final(self)),
    {
        match self.window(v).view {
            Some(id) => {
                let total: usize = self.window(v).total;
                let last: usize = if total > 0 { total - 1 } else { 0 };
                let at: usize = if start <= last { start } else { last };
                self.first_call(
                    "view.window",
                    list3(Json::whole(id), Json::whole(at as u64), Json::whole(WINDOW_SIZE as u64)),
                    Then::Window(v, at),
                );
            },
            None => {},
        }
    }

    /// The pipelines that are shown of those that the engine sent.
    pub open spec fn shown_pipelines(self) -> Seq<JV> {
        let src = if self.shown.pipe_running_only { unfinished(jvs(self.shown.pipelines_flat@)) } else { jvs(self.shown.pipelines_flat@) };
        if self.shown.pipe_tree { tree_rows(src) } else { src }
    }

    /// Works out the pipelines that are shown, and keeps the cursor among them.
    pub fn rebuild_pipeline_view(&mut self)
        ensures
            *final(self) == old(self).with_win(FilterView::Pipelines, final(self).lists.pipelines),
            jvs(final(self).lists.pipelines.rows@) == old(self).shown_pipelines(),
            final(self).lists.pipelines == (Win {
                rows: final(self).lists.pipelines.rows,
                sel: final(self).lists.pipelines.sel,
                ..old(self).lists.pipelines
            }),
            final(self).lists.pipelines.sel as int == within(
                old(self).lists.pipelines.sel as int,
                old(self).shown_pipelines().len() as int,
            ),
    {
        let src: Vec<Json> = if self.shown.pipe_running_only {
            keep_unfinished(&self.shown.pipelines_flat)
        } else {
            copy_all(&self.shown.pipelines_flat)
        };
        let rows: Vec<Json> = if self.shown.pipe_tree { build_pipeline_tree(src) } else { src };
        let n: usize = rows.len();
        assert(n == jvs(rows@).len());
        self.lists.pipelines.rows = rows;
        if n > 0 && self.lists.pipelines.sel >= n {
            self.lists.pipelines.sel = n - 1;
        }
    }

    /// The build edges that are shown of those that the engine sent.
    pub open spec fn shown_edges(self) -> Seq<JV> {
        if self.shown.edges_running_only && self.live() { being_built(jvs(self.shown.edges_flat@)) } else { jvs(self.shown.edges_flat@) }
    }

    /// Works out the build edges that are shown, and keeps the cursor among them.
    pub fn rebuild_edge_view(&mut self)
        ensures
            *final(self) == old(self).with_win(FilterView::BuildEdges, final(self).lists.edges),
            jvs(final(self).lists.edges.rows@) == old(self).shown_edges(),
            final(self).lists.edges == (Win {
                rows: final(self).lists.edges.rows,
                sel: final(self).lists.edges.sel,
                ..old(self).lists.edges
            }),
            final(self).lists.edges.sel as int == within(old(self).lists.edges.sel as int, old(self).shown_edges().len() as int),
    {
        let live: bool = self.cur_session_live();
        let rows: Vec<Json> = if self.shown.edges_running_only && live {
            keep_being_built(&self.shown.edges_flat)
        } else {
            copy_all(&self.shown.edges_flat)
        };
        let n: usize = rows.len();
        assert(n == jvs(rows@).len());
        self.lists.edges.rows = rows;
        if n > 0 && self.lists.edges.sel >= n {
            self.lists.edges.sel = n - 1;
        }
    }
}

fn keep_unfinished(v: &Vec<Json>) -> (r: Vec<Json>)
    ensures
        jvs(r@) == unfinished(jvs(v@)),
{
    let mut out: Vec<Json> = Vec::new();
    let mut i: usize = 0;
    assert(jvs(out@) =~= unfinished(jvs(v@).take(0)));
    while i < v.len()
        invariant
            i <= v@.len(),
            jvs(out@) == unfinished(jvs(v@).take(i as int)),
        decreases v@.len() - i,
    {
        let ghost t = jvs(v@).take(i + 1);
        assert(t.drop_last() == jvs(v@).take(i as int));
        assert(t.last() == v@[i as int]@);
        if v[i].num_at("done_ts").is_zero() {
            let ghost before = jvs(out@);
            out.push(v[i].copy());
            assert(jvs(out@) =~= before.push(v@[i as int]@));
        }
        i += 1;
    }
    assert(jvs(v@).take(v@.len() as int) == jvs(v@));
    out
}

fn keep_being_built(v: &Vec<Json>) -> (r: Vec<Json>)
    ensures
        jvs(r@) == being_built(jvs(v@)),
{
    let mut out: Vec<Json> = Vec::new();
    let mut i: usize = 0;
    assert(jvs(out@) =~= being_built(jvs(v@).take(0)));
    while i < v.len()
        invariant
            i <= v@.len(),
            jvs(out@) == being_built(jvs(v@).take(i as int)),
        decreases v@.len() - i,
    {
        let ghost t = jvs(v@).take(i + 1);
        assert(t.drop_last() == jvs(v@).take(i as int));
        assert(t.last() == v@[i as int]@);
        if edge_running(&v[i]) {
            let ghost before = jvs(out@);
            out.push(v[i].copy());
            assert(jvs(out@) =~= before.push(v@[i as int]@));
        }
        i += 1;
    }
    assert(jvs(v@).take(v@.len() as int) == jvs(v@));
    out
}

} // verus!
