//! The filters of the lists, and what else narrows what is shown.

use vstd::prelude::*;

use crate::app::{App, Filters, Op, Shown, Then, Ui};
#[allow(unused_imports)]
use crate::app::StepV;
use crate::json::{list2, Json};
#[allow(unused_imports)]
use crate::json::{jvs, JV};
use crate::lists::fit_usize;
#[allow(unused_imports)]
use crate::lists::{fit, knows_errors, less_one, minus, rep_v, within};
use crate::rules::{Clause, Join};
#[allow(unused_imports)]
use crate::rules::{clauses, ClauseV};
use crate::text::{own, trim};
#[allow(unused_imports)]
use crate::text::trimmed;
use crate::types::{ClauseField, ClauseRow, FilterView, Modal, Pane, ViewFilter, Win};
#[allow(unused_imports)]
use crate::types::{committed, default_kind_of, modal_v, rows_v, FilterV, ModalV};

verus! {

impl Filters {
    /// The filters with another one for a list.
    pub open spec fn with(self, v: FilterView, f: ViewFilter) -> Filters {
        match v {
            FilterView::Changes => Filters { changes: f, ..self },
            FilterView::Procs => Filters { procs: f, ..self },
            FilterView::Outputs => Filters { outputs: f, ..self },
            FilterView::Pipelines => Filters { pipelines: f, ..self },
            FilterView::BuildEdges => Filters { edges: f, ..self },
        }
    }

    fn set(&mut self, v: FilterView, f: ViewFilter)
        ensures
            *final(self) == old(self).with(v, f),
    {
        match v {
            FilterView::Changes => {
                self.changes = f;
            },
            FilterView::Procs => {
                self.procs = f;
            },
            FilterView::Outputs => {
                self.outputs = f;
            },
            FilterView::Pipelines => {
                self.pipelines = f;
            },
            FilterView::BuildEdges => {
                self.edges = f;
            },
        }
    }
}

/// The list that a pane shows, where it shows one.
pub open spec fn list_of(p: Pane) -> Option<FilterView> {
    match p {
        Pane::Changes => Some(FilterView::Changes),
        Pane::Processes => Some(FilterView::Procs),
        Pane::Outputs => Some(FilterView::Outputs),
        Pane::Pipelines => Some(FilterView::Pipelines),
        Pane::BuildEdges => Some(FilterView::BuildEdges),
        _ => None,
    }
}

pub fn list_of_pane(p: Pane) -> (r: Option<FilterView>)
    ensures
        r == list_of(p),
{
    match p {
        Pane::Changes => Some(FilterView::Changes),
        Pane::Processes => Some(FilterView::Procs),
        Pane::Outputs => Some(FilterView::Outputs),
        Pane::Pipelines => Some(FilterView::Pipelines),
        Pane::BuildEdges => Some(FilterView::BuildEdges),
        _ => None,
    }
}

/// The clauses of the lines of the editor that hold a pattern.
pub open spec fn kept(rows: Seq<ClauseV>) -> Seq<ClauseV>
    decreases rows.len(),
{
    if rows.len() == 0 {
        Seq::empty()
    } else if trimmed(rows.last().pattern).len() == 0 {
        kept(rows.drop_last())
    } else {
        kept(rows.drop_last()).push(committed(rows.last()))
    }
}

/// One of the clauses is switched on.
pub open spec fn any_enabled(cs: Seq<ClauseV>) -> bool {
    exists|i: int| 0 <= i < cs.len() && (#[trigger] cs[i]).enabled
}

fn keep_rows(rows: &Vec<ClauseRow>) -> (r: Vec<Clause>)
    ensures
        clauses(r@) == kept(rows_v(rows@)),
{
    let ghost all = rows_v(rows@);
    let mut out: Vec<Clause> = Vec::new();
    let mut i: usize = 0;
    assert(clauses(out@) =~= kept(all.take(0)));
    while i < rows.len()
        invariant
            i <= rows@.len(),
            all == rows_v(rows@),
            clauses(out@) == kept(all.take(i as int)),
        decreases rows@.len() - i,
    {
        let ghost t = all.take(i + 1);
        assert(t.drop_last() =~= all.take(i as int));
        assert(t.last() == rows@[i as int]@);
        if !trim(rows[i].pattern.as_str()).as_str().is_empty() {
            let ghost o = clauses(out@);
            out.push(rows[i].to_clause());
            assert(clauses(out@) =~= o.push(committed(rows@[i as int]@)));
        }
        i += 1;
    }
    assert(all.take(all.len() as int) =~= all);
    out
}

fn has_enabled(cs: &Vec<Clause>) -> (r: bool)
    ensures
        r == any_enabled(clauses(cs@)),
{
    let mut i: usize = 0;
    while i < cs.len()
        invariant
            i <= cs@.len(),
            forall|k: int| 0 <= k < i ==> !(#[trigger] clauses(cs@)[k]).enabled,
        decreases cs@.len() - i,
    {
        if cs[i].enabled {
            assert(clauses(cs@)[i as int].enabled);
            return true;
        }
        assert(!clauses(cs@)[i as int].enabled);
        i += 1;
    }
    false
}

impl App {
    /// The state with another filter of a list.
    pub open spec fn with_filter(self, v: FilterView, f: ViewFilter) -> App {
        App { filters: self.filters.with(v, f), ..self }
    }

    pub(crate) fn set_filter(&mut self, v: FilterView, f: ViewFilter)
        ensures
            *final(self) == old(self).with_filter(v, f),
    {
        self.filters.set(v, f);
    }

    /// The call that sends the filter of a list.
    pub open spec fn pushing(self, v: FilterView) -> Seq<StepV> {
        match self.win(v).view {
            Some(id) => seq![
                StepV::Call("view.filter"@, seq![JV::Int(id as int), self.sent_filter(v)], Then::Filtered(v)),
            ],
            None => Seq::empty(),
        }
    }

    /// The list that the keys go to.
    pub fn focus_filter_view(&self) -> (r: Option<FilterView>)
        ensures
            r == list_of(self.ui.focus),
    {
        list_of_pane(self.ui.focus)
    }

    /// The number of the row at the cursor of a list.
    pub open spec fn item_id(self, v: FilterView) -> Option<i64> {
        let w = self.win(v);
        if w.sel < w.rows@.len() {
            match w.rows@[w.sel as int]@.get_i64("id"@) {
                Some(n) => Some(n as i64),
                None => None,
            }
        } else {
            None
        }
    }

    pub fn selected_item_id(&self, v: FilterView) -> (r: Option<i64>)
        ensures
            r == self.item_id(v),
    {
        let w: &Win = self.window(v);
        if w.sel < w.rows.len() {
            w.rows[w.sel].get_i64("id")
        } else {
            None
        }
    }

    /// The step that puts the cursor of a list back on the row of a number.
    pub open spec fn scrolling(v: FilterView, id: Option<i64>) -> Seq<StepV> {
        match id {
            Some(n) => seq![StepV::Op(Op::ScrollTo(v, n))],
            None => Seq::empty(),
        }
    }

    /// The steps after a filter has changed: it is sent, the cursor goes back to its row, and
    /// that is said.
    fn refilter(&mut self, v: FilterView, id: Option<i64>, s: &str)
        ensures
            *final(self) == (App { todo: final(self).todo, ..*old(self) }),
            final(self).plan() == old(self).pushing(v) + App::scrolling(v, id) + seq![StepV::Say(s@)] + old(self).plan(),
    {
        let ghost orig = *self;
        self.first_say(s);
        match id {
            Some(n) => {
                self.first_op(Op::ScrollTo(v, n));
            },
            None => {},
        }
        self.push_filter(v);
        assert(self.plan() =~= orig.pushing(v) + App::scrolling(v, id) + seq![StepV::Say(s@)] + orig.plan());
    }

    /// What switching the filter of the list off or opening its editor changes.
    pub open spec fn toggle_filter_v(self, post: App) -> bool {
        if self.ui.focus == Pane::Vars {
            let q = self.side.vars.query;
            &&& modal_v(post.ui.modal) == Some(
                ModalV::VarQuery {
                    buf: if self.side.vars.any || q.1@.len() == 0 { q.0@ } else { q.0@ + " "@ + q.1@ },
                },
            )
            &&& post == (App { ui: (Ui { modal: post.ui.modal, ..self.ui }), ..self })
        } else {
            match list_of(self.ui.focus) {
                None => self.says(post, "filter: not a filterable pane"@),
                Some(v) => if self.filter(v).on {
                    self.clear_filter_v(v, post)
                } else {
                    let seed = self.filter(v)@.clauses;
                    let fresh = ClauseV {
                        kind: default_kind_of(v),
                        pattern: Seq::empty(),
                        join: Join::And,
                        negate: false,
                        enabled: true,
                    };
                    &&& modal_v(post.ui.modal) == Some(
                        ModalV::Search {
                            view: v,
                            rows: if seed.len() == 0 { seq![fresh] } else { seed },
                            sel: 0,
                            field: ClauseField::Pattern,
                        },
                    )
                    &&& post == (App { ui: (Ui { modal: post.ui.modal, ..self.ui }), ..self })
                },
            }
        }
    }

    /// Switches the filter of the list off, or opens the editor with its last clauses.
    pub fn toggle_filter(&mut self)
        ensures
            old(self).toggle_filter_v(*final(self)),
    {
        if self.ui.focus == Pane::Vars {
            let q: &(String, String) = &self.side.vars.query;
            let buf: String = if self.side.vars.any || q.1.as_str().is_empty() {
                q.0.clone()
            } else {
                q.0.clone().concat(" ").concat(q.1.as_str())
            };
            self.ui.modal = Some(Modal::VarQuery { buf });
            return;
        }
        match self.focus_filter_view() {
            None => {
                self.say("filter: not a filterable pane");
            },
            Some(v) => {
                if self.view_filter(v).on {
                    self.clear_filter(v);
                    return;
                }
                let seed: &Vec<Clause> = &self.view_filter(v).clauses;
                let ghost cs = clauses(seed@);
                assert(cs.len() == seed@.len());
                let mut rows: Vec<ClauseRow> = Vec::new();
                if seed.len() == 0 {
                    rows.push(
                        ClauseRow {
                            enabled: true,
                            join: Join::And,
                            negate: false,
                            kind: own(v.default_kind()),
                            pattern: String::new(),
                        },
                    );
                    assert(rows@[0]@.pattern =~= Seq::<char>::empty());
                    assert(rows_v(rows@) =~= seq![
                        ClauseV {
                            kind: default_kind_of(v),
                            pattern: Seq::empty(),
                            join: Join::And,
                            negate: false,
                            enabled: true,
                        },
                    ]);
                } else {
                    rows = rows_from(seed);
                }
                self.ui.modal = Some(Modal::Search { view: v, rows, sel: 0, field: ClauseField::Pattern });
            },
        }
    }

    /// What a filter that was typed changes.
    pub open spec fn commit_filter_v(self, v: FilterView, rows: Seq<ClauseV>, post: App) -> bool {
        let cs = kept(rows);
        if any_enabled(cs) {
            &&& post.filter(v)@ == (FilterV { clauses: cs, on: true, generated: false })
            &&& post == (App {
                todo: post.todo,
                ..self.with_win(v, (Win { sel: 0, ..self.win(v) })).with_filter(v, post.filter(v))
            })
            &&& post.plan() == post.pushing(v) + App::scrolling(v, self.item_id(v)) + seq![
                StepV::Say("filter applied"@),
            ] + self.plan()
        } else {
            self.says(post, "filter: no enabled clause"@)
        }
    }

    /// Takes in the lines of the editor as the filter of a list. Lines without a pattern are left
    /// out; the cursor stays on its row where the filter lets it through.
    pub fn commit_filter(&mut self, v: FilterView, rows: &Vec<ClauseRow>)
        ensures
            old(self).commit_filter_v(v, rows_v(rows@), *final(self)),
    {
        let cs: Vec<Clause> = keep_rows(rows);
        if has_enabled(&cs) {
            let id: Option<i64> = self.selected_item_id(v);
            self.set_filter(v, ViewFilter { clauses: cs, on: true, generated: false });
            self.set_sel(v, 0);
            self.refilter(v, id, "filter applied");
        } else {
            self.say("filter: no enabled clause");
        }
    }

    /// What switching a filter off changes.
    pub open spec fn clear_filter_v(self, v: FilterView, post: App) -> bool {
        &&& post.filter(v)@ == (FilterV {
            clauses: if self.filter(v).generated { Seq::empty() } else { self.filter(v)@.clauses },
            on: false,
            generated: false,
        })
        &&& post == (App { todo: post.todo, ..self.with_filter(v, post.filter(v)) })
        &&& post.plan() == post.pushing(v) + App::scrolling(v, self.item_id(v)) + seq![
            StepV::Say("filter cleared"@),
        ] + self.plan()
    }

    /// Switches the filter of a list off. Clauses that were typed are kept for the next time.
    pub fn clear_filter(&mut self, v: FilterView)
        ensures
            old(self).clear_filter_v(v, *final(self)),
    {
        let id: Option<i64> = self.selected_item_id(v);
        let mut f: ViewFilter = self.view_filter(v).copy();
        if f.generated {
            f.clauses = Vec::new();
            assert(clauses(f.clauses@) =~= Seq::<ClauseV>::empty());
        }
        f.on = false;
        f.generated = false;
        self.set_filter(v, f);
        self.refilter(v, id, "filter cleared");
    }

    /// The change that `scroll_view_to_id` makes.
    pub open spec fn scroll_view_to_id_v(self, v: FilterView, id: i64, post: App) -> bool {
        &&& (post == (App { todo: post.todo, ..self }))
        &&& (match self.win(v).view {
                Some(n) => post.plan() == seq![
                    StepV::Call("view.find"@, seq![JV::Int(n as int), JV::Int(id as int)], Then::Find(v)),
                ] + self.plan(),
                None => post.plan() == self.plan(),
            })
    }

    /// Asks for the place of a row in its list.
    pub fn scroll_view_to_id(&mut self, v: FilterView, id: i64)
        ensures
            old(self).scroll_view_to_id_v(v, id, *final(self)),
    {
        match self.window(v).view {
            Some(n) => {
                self.first_call("view.find", list2(Json::whole(n), Json::Int(id)), Then::Find(v));
            },
            None => {},
        }
    }

    /// The change that `found` makes.
    pub open spec fn found_v(self, v: FilterView, r: Result<Json, String>, post: App) -> bool {
        match rep_v(r) {
                Ok(j) => if j.flag("ok"@) {
                    let pos = fit(j.u64_or("pos"@, 0));
                    &&& post == (App { todo: post.todo, ..self })
                    &&& post.plan() == seq![
                        StepV::Op(Op::Fetch(v, minus(pos as int, 200) as usize)),
                        StepV::Op(Op::Place(v, pos)),
                    ] + self.plan()
                } else {
                    post == self
                },
                Err(_) => post == self,
            }
    }

    /// Takes in the place of a row in its list, and puts the cursor there.
    pub fn found(&mut self, v: FilterView, r: Result<Json, String>)
        ensures
            old(self).found_v(v, r, *final(self)),
    {
        match r {
            Ok(j) => {
                if j.flag("ok") {
                    let pos: usize = fit_usize(j.u64_or("pos", 0));
                    self.goto_view_pos(v, pos);
                }
            },
            Err(_) => {},
        }
    }

    /// What showing only errors, or everything again, changes.
    pub open spec fn toggle_err_only_v(self, post: App) -> bool {
        match list_of(self.ui.focus) {
            Some(v) => if knows_errors(v) {
                let on = !self.shown.err_only;
                &&& post == (App { shown: (Shown { err_only: on, ..self.shown }), todo: post.todo, ..self })
                &&& post.plan() == post.pushing(v) + seq![
                    StepV::Say(if on { "showing ERRORS only ('!' to clear)"@ } else { "errors-only off"@ }),
                ] + self.plan()
            } else {
                self.says(post, "errors-only: not applicable here"@)
            },
            None => self.says(post, "errors-only: not applicable here"@),
        }
    }

    /// Shows only errors, or everything again.
    pub fn toggle_err_only(&mut self)
        ensures
            old(self).toggle_err_only_v(*final(self)),
    {
        let v: Option<FilterView> = match self.focus_filter_view() {
            Some(FilterView::Outputs) => Some(FilterView::Outputs),
            Some(FilterView::Pipelines) => Some(FilterView::Pipelines),
            Some(FilterView::BuildEdges) => Some(FilterView::BuildEdges),
            _ => None,
        };
        match v {
            Some(v) => {
                self.shown.err_only = !self.shown.err_only;
                let s: &str = if self.shown.err_only {
                    "showing ERRORS only ('!' to clear)"
                } else {
                    "errors-only off"
                };
                self.refilter(v, None, s);
                assert(self.plan() =~= self.pushing(v) + seq![StepV::Say(s@)] + old(self).plan());
            },
            None => {
                self.say("errors-only: not applicable here");
            },
        }
    }

    /// The state in which not only errors are shown.
    pub open spec fn without_lens(self) -> App {
        App { shown: (Shown { err_only: false, ..self.shown }), ..self }
    }

    /// The call that has the list of the pane show all again, where only errors are shown.
    pub open spec fn lens_steps(self) -> Seq<StepV> {
        if self.shown.err_only {
            match list_of(self.ui.focus) {
                Some(v) => self.without_lens().pushing(v),
                None => Seq::empty(),
            }
        } else {
            Seq::empty()
        }
    }

    /// That only errors are shown ends with the pane that it was chosen on.
    pub(crate) fn drop_lens(&mut self)
        ensures
            old(self).without_lens().planned(old(self).lens_steps(), *final(self)),
    {
        let ghost orig = *self;
        if self.shown.err_only {
            self.shown.err_only = false;
            match self.focus_filter_view() {
                Some(v) => {
                    self.push_filter(v);
                },
                None => {},
            }
        }
        assert(self.plan() =~= orig.lens_steps() + orig.plan());
    }

    /// What showing only running processes, or all of them, changes.
    pub open spec fn toggle_proc_running_only_v(self, post: App) -> bool {
        let on = !self.shown.proc_running_only;
        exists|mid: App| #[trigger]
            mid.load_v(FilterView::Procs, post) && mid == (App {
                shown: (Shown { proc_running_only: on, ..self.shown }),
                todo: mid.todo,
                ..self
            }) && mid.plan() == seq![StepV::Say(if on { "procs: running only"@ } else { "procs: all"@ })] + self.plan()
    }

    /// Shows only running processes, or all of them.
    pub fn toggle_proc_running_only(&mut self)
        ensures
            old(self).toggle_proc_running_only_v(*final(self)),
    {
        self.shown.proc_running_only = !self.shown.proc_running_only;
        let s: &str = if self.shown.proc_running_only { "procs: running only" } else { "procs: all" };
        self.first_say(s);
        let ghost mid = *self;
        self.load_list(FilterView::Procs);
        assert(mid.load_v(FilterView::Procs, *self));
    }

    /// What showing the pipelines in another way changes.
    pub open spec fn pipelines_reshown(self, shown: Shown, sel: int, s: Seq<char>, post: App) -> bool {
        let w = Win { rows: post.lists.pipelines.rows, sel: post.lists.pipelines.sel, ..self.lists.pipelines };
        &&& jvs(post.lists.pipelines.rows@) == post.shown_pipelines()
        &&& post.lists.pipelines.sel as int == within(sel, post.shown_pipelines().len() as int)
        &&& post.ui.status@ == s
        &&& post == (App {
            shown,
            ui: (Ui { status: post.ui.status, ..self.ui }),
            ..self.with_win(FilterView::Pipelines, w)
        })
    }

    /// What showing the pipelines as a tree, or in their order, changes.
    pub open spec fn toggle_pipeline_tree_v(self, post: App) -> bool {
        let on = !self.shown.pipe_tree;
        self.pipelines_reshown(
            Shown { pipe_tree: on, ..self.shown },
            self.lists.pipelines.sel as int,
            if on { "pipelines: tree view"@ } else { "pipelines: flat chronological view"@ },
            post,
        )
    }

    /// Shows the pipelines as a tree, or in the order in which they began.
    pub fn toggle_pipeline_tree(&mut self)
        ensures
            old(self).toggle_pipeline_tree_v(*final(self)),
    {
        self.shown.pipe_tree = !self.shown.pipe_tree;
        self.rebuild_pipeline_view();
        self.say(if self.shown.pipe_tree { "pipelines: tree view" } else { "pipelines: flat chronological view" });
    }

    /// What showing only running pipelines, or all of them, changes.
    pub open spec fn toggle_pipeline_running_only_v(self, post: App) -> bool {
        let on = !self.shown.pipe_running_only;
        self.pipelines_reshown(
            Shown { pipe_running_only: on, ..self.shown },
            0,
            if on { "pipelines: running only"@ } else { "pipelines: all"@ },
            post,
        )
    }

    /// Shows only running pipelines, or all of them.
    pub fn toggle_pipeline_running_only(&mut self)
        ensures
            old(self).toggle_pipeline_running_only_v(*final(self)),
    {
        self.shown.pipe_running_only = !self.shown.pipe_running_only;
        self.lists.pipelines.sel = 0;
        self.rebuild_pipeline_view();
        self.say(if self.shown.pipe_running_only { "pipelines: running only" } else { "pipelines: all" });
    }

    /// What showing only the build edges that are being built, or all of them, changes.
    pub open spec fn toggle_edge_running_only_v(self, post: App) -> bool {
        let on = !self.shown.edges_running_only;
        let n = post.lists.edges.rows@.len() as int;
        let w = Win { rows: post.lists.edges.rows, sel: less_one(n) as usize, ..self.lists.edges };
        &&& jvs(post.lists.edges.rows@) == post.shown_edges()
        &&& post.ui.status@ == (if on { "targets: running only"@ } else { "targets: all"@ })
        &&& post == (App {
            shown: (Shown { edges_running_only: on, ..self.shown }),
            ui: (Ui { status: post.ui.status, ..self.ui }),
            ..self.with_win(FilterView::BuildEdges, w)
        })
    }

    /// Shows only the build edges that are being built, or all of them.
    pub fn toggle_edge_running_only(&mut self)
        ensures
            old(self).toggle_edge_running_only_v(*final(self)),
    {
        self.shown.edges_running_only = !self.shown.edges_running_only;
        self.lists.edges.sel = 0;
        self.rebuild_edge_view();
        let n: usize = self.lists.edges.rows.len();
        self.lists.edges.sel = if n > 0 { n - 1 } else { 0 };
        self.say(if self.shown.edges_running_only { "targets: running only" } else { "targets: all" });
    }
}

fn rows_from(cs: &Vec<Clause>) -> (r: Vec<ClauseRow>)
    ensures
        rows_v(r@) == clauses(cs@),
{
    let mut out: Vec<ClauseRow> = Vec::new();
    let mut i: usize = 0;
    while i < cs.len()
        invariant
            i <= cs@.len(),
            out@.len() == i,
            forall|k: int| 0 <= k < i ==> (#[trigger] out@[k])@ == cs@[k]@,
        decreases cs@.len() - i,
    {
        out.push(ClauseRow::from_clause(&cs[i]));
        i += 1;
    }
    assert(rows_v(out@) =~= clauses(cs@));
    out
}

/// A typed filter that is switched off keeps its clauses: the editor opens with them.
pub proof fn law_typed_clauses_survive(a: App, b: App, c: App, v: FilterView)
    requires
        list_of(a.ui.focus) == Some(v),
        a.filter(v).on,
        !a.filter(v).generated,
        a.filter(v)@.clauses.len() > 0,
        a.clear_filter_v(v, b),
        b.toggle_filter_v(c),
    ensures
        modal_v(c.ui.modal) == Some(
            ModalV::Search { view: v, rows: a.filter(v)@.clauses, sel: 0, field: ClauseField::Pattern },
        ),
{
}

/// A filter that was made by going from pane to pane is gone once it is switched off.
pub proof fn law_generated_clauses_are_dropped(a: App, b: App, v: FilterView)
    requires
        a.filter(v).generated,
        a.clear_filter_v(v, b),
    ensures
        b.filter(v)@ == FilterV::none(),
{
    assert(b.filter(v)@.clauses =~= FilterV::none().clauses);
}

} // verus!
