//! Going from pane to pane: what is shown there follows the row at the cursor, and the way back
//! is remembered.

use vstd::prelude::*;

use crate::app::{App, Boxes, Domain, Jobs, Lists, Marks, Op, Shown, Side, Then, Ui, Vars, NAV_HISTORY_CAP};
#[allow(unused_imports)]
use crate::app::StepV;
use crate::diff::ints;
use crate::filters::list_of_pane;
#[allow(unused_imports)]
use crate::filters::list_of;
use crate::json::{list2, list4, Json};
#[allow(unused_imports)]
use crate::json::{jvs, JV};
#[allow(unused_imports)]
use crate::lists::{less_one, minus, rep_v, smaller};
use crate::rules::{Clause, Join, Match};
#[allow(unused_imports)]
use crate::rules::{clauses, ClauseV};
use crate::text::{decimal_signed, join, own};
#[allow(unused_imports)]
use crate::text::{joined, sdec, strs};
use crate::types::{arr, FilterView, Modal, NavSnapshot, Pane, ViewFilter, Win};
#[allow(unused_imports)]
use crate::types::{modal_v, snaps, FilterV, ModalV, SnapV};
use crate::vars::{places, var_detail, NavV, VarNavAction};

verus! {

/// The list behind a pane; the diff is that of the changes.
pub open spec fn list_behind(p: Pane) -> Option<FilterView> {
    if p == Pane::Hunks { Some(FilterView::Changes) } else { list_of(p) }
}

pub fn pane_filter_view(p: Pane) -> (r: Option<FilterView>)
    ensures
        r == list_behind(p),
{
    if p == Pane::Hunks {
        Some(FilterView::Changes)
    } else {
        list_of_pane(p)
    }
}

/// The number of the process of a row.
pub open spec fn process_of(r: JV) -> Option<int> {
    match r.arr() {
        Some(a) => if a.len() > 0 { a[0].i64() } else { None },
        None => r.get_i64("rid"@),
    }
}

fn process_number(r: &Json) -> (n: Option<i64>)
    ensures
        match n {
            Some(i) => process_of(r@) == Some(i as int),
            None => process_of(r@) is None,
        },
{
    match r.as_arr() {
        Some(a) => {
            assert(jvs(a@).len() == a@.len());
            if a.len() > 0 {
                assert(jvs(a@)[0] == a@[0]@);
                a[0].as_i64()
            } else {
                None
            }
        },
        None => r.get_i64("rid"),
    }
}

/// The numbers among values.
pub open spec fn numbers_in(v: Seq<JV>) -> Seq<int>
    decreases v.len(),
{
    if v.len() == 0 {
        Seq::empty()
    } else {
        match v.last().i64() {
            Some(n) => numbers_in(v.drop_last()).push(n),
            None => numbers_in(v.drop_last()),
        }
    }
}

fn collect_numbers(v: &Vec<Json>) -> (r: Vec<i64>)
    ensures
        ints(r@) == numbers_in(jvs(v@)),
{
    let ghost all = jvs(v@);
    let mut out: Vec<i64> = Vec::new();
    let mut i: usize = 0;
    assert(ints(out@) =~= numbers_in(all.take(0)));
    while i < v.len()
        invariant
            i <= v@.len(),
            all == jvs(v@),
            ints(out@) == numbers_in(all.take(i as int)),
        decreases v@.len() - i,
    {
        let ghost t = all.take(i + 1);
        assert(t.drop_last() =~= all.take(i as int));
        assert(t.last() == v@[i as int]@);
        match v[i].as_i64() {
            Some(n) => {
                let ghost o = ints(out@);
                out.push(n);
                assert(ints(out@) =~= o.push(n as int));
            },
            None => {},
        }
        i += 1;
    }
    assert(all.take(all.len() as int) =~= all);
    out
}

/// The numbers as values.
pub open spec fn number_values(v: Seq<int>) -> Seq<JV> {
    v.map_values(|n: int| JV::Int(n))
}

fn values_of_numbers(v: &Vec<i64>) -> (r: Vec<Json>)
    ensures
        jvs(r@) == number_values(ints(v@)),
{
    let mut out: Vec<Json> = Vec::new();
    let mut i: usize = 0;
    while i < v.len()
        invariant
            i <= v@.len(),
            out@.len() == i,
            forall|k: int| 0 <= k < i ==> (#[trigger] out@[k])@ == JV::Int(v@[k] as int),
        decreases v@.len() - i,
    {
        out.push(Json::Int(v[i]));
        i += 1;
    }
    assert(jvs(out@) =~= number_values(ints(v@)));
    out
}

/// The pattern that lets rows of those numbers through.
pub open spec fn id_pattern(v: Seq<int>) -> Seq<char> {
    joined(v.map_values(|n: int| sdec(n)), ","@)
}

fn pattern_of_ids(v: &Vec<i64>) -> (r: String)
    ensures
        r@ == id_pattern(ints(v@)),
{
    let mut out: Vec<String> = Vec::new();
    let mut i: usize = 0;
    while i < v.len()
        invariant
            i <= v@.len(),
            out@.len() == i,
            forall|k: int| 0 <= k < i ==> (#[trigger] out@[k])@ == sdec(v@[k] as int),
        decreases v@.len() - i,
    {
        out.push(decimal_signed(v[i]));
        i += 1;
    }
    assert(strs(out@) =~= ints(v@).map_values(|n: int| sdec(n)));
    join(&out, ",")
}

/// The engine's name for what a number is of.
pub open spec fn domain_name(d: Domain) -> Seq<char> {
    match d {
        Domain::Process => "process"@,
        Domain::Pipeline => "pipeline"@,
        Domain::Edge => "edge"@,
    }
}

fn name_of_domain(d: Domain) -> (r: &'static str)
    ensures
        r@ == domain_name(d),
{
    match d {
        Domain::Process => "process",
        Domain::Pipeline => "pipeline",
        Domain::Edge => "edge",
    }
}

/// What the rows of a list are known by in a filter.
pub open spec fn domain_of(v: FilterView) -> Domain {
    match v {
        FilterView::Pipelines => Domain::Pipeline,
        FilterView::BuildEdges => Domain::Edge,
        _ => Domain::Process,
    }
}

fn domain_of_list(v: FilterView) -> (r: Domain)
    ensures
        r == domain_of(v),
{
    match v {
        FilterView::Pipelines => Domain::Pipeline,
        FilterView::BuildEdges => Domain::Edge,
        _ => Domain::Process,
    }
}

/// The history with at most as many entries as it may have, the last ones.
pub open spec fn capped(s: Seq<SnapV>) -> Seq<SnapV> {
    if s.len() > NAV_HISTORY_CAP { s.skip(s.len() - NAV_HISTORY_CAP) } else { s }
}

/// Zero or one number.
pub open spec fn one_number(n: Option<int>) -> Seq<int> {
    match n {
        Some(i) => seq![i],
        None => Seq::empty(),
    }
}

fn vec_of(n: Option<i64>) -> (r: Vec<i64>)
    ensures
        ints(r@) == one_number(
            match n {
                Some(i) => Some(i as int),
                None => None,
            },
        ),
{
    let mut v: Vec<i64> = Vec::new();
    match n {
        Some(i) => {
            v.push(i);
            assert(ints(v@) =~= seq![i as int]);
        },
        None => {
            assert(ints(v@) =~= Seq::<int>::empty());
        },
    }
    v
}

impl Lists {
    /// The lists, none of which is taken to be the one of the box at the cursor.
    pub open spec fn of_no_box(self) -> Lists {
        Lists {
            changes: Win { sid: None, ..self.changes },
            processes: Win { sid: None, ..self.processes },
            outputs: Win { sid: None, ..self.outputs },
            pipelines: Win { sid: None, ..self.pipelines },
            edges: Win { sid: None, ..self.edges },
        }
    }
}

impl App {
    /// What the cursor of the boxes, put on another box, changes.
    pub open spec fn box_moved_v(self, post: App) -> bool {
        &&& post == (App {
            boxes: (Boxes {
                summary: if self.sid() is Some { Json::Null } else { self.boxes.summary },
                marks: post.boxes.marks,
                ..self.boxes
            }),
            lists: self.lists.of_no_box(),
            ui: (Ui { right_scroll: 0, ..self.ui }),
            todo: post.todo,
            ..self
        })
        &&& if self.boxes.marks.scope == Some(Pane::Changes) {
            &&& post.boxes.marks.keys@.len() == 0
            &&& post.boxes.marks.scope is None
            &&& post.boxes.marks.anchor is None
        } else {
            post.boxes.marks == self.boxes.marks
        }
        &&& post.plan() == (match self.sid() {
            Some(sid) => seq![StepV::Call("review.box_summary"@, seq![JV::Str(sid), JV::Int(40)], Then::Summary)],
            None => Seq::empty(),
        }) + self.plan()
    }

    /// The cursor of the boxes is on another box: what is told of it is asked for; its lists are
    /// loaded only when they are gone to. A selection of changes ends with the box that they are of.
    pub fn on_box_cursor_moved(&mut self)
        ensures
            old(self).box_moved_v(*final(self)),
    {
        let ghost orig = *self;
        self.ui.right_scroll = 0;
        self.lists.changes.sid = None;
        self.lists.processes.sid = None;
        self.lists.outputs.sid = None;
        self.lists.pipelines.sid = None;
        self.lists.edges.sid = None;
        if self.boxes.marks.scope == Some(Pane::Changes) {
            self.boxes.marks = Marks { keys: Vec::new(), scope: None, anchor: None };
        }
        self.refresh_recent_changes();
        assert(self.plan() =~= (match orig.sid() {
            Some(sid) => seq![StepV::Call("review.box_summary"@, seq![JV::Str(sid), JV::Int(40)], Then::Summary)],
            None => Seq::empty(),
        }) + orig.plan());
    }

    /// The place of the cursor of the pane, in the whole list.
    pub open spec fn cursor_place(self) -> int {
        match self.ui.focus {
            Pane::Sessions => self.boxes.sel as int,
            Pane::Rules => self.side.sel_rule as int,
            Pane::Flows => self.side.flows.sel as int,
            Pane::Packets => self.side.packets.sel as int,
            Pane::ApiLogs => self.side.api.sel as int,
            Pane::Network => self.side.web.sel as int,
            Pane::Vars => self.side.vars.sel as int,
            p => match list_behind(p) {
                Some(v) => smaller(self.win(v).start + self.win(v).sel, usize::MAX as int),
                None => 0,
            },
        }
    }

    pub fn current_cursor_global(&self) -> (r: usize)
        ensures
            r as int == self.cursor_place(),
    {
        match self.ui.focus {
            Pane::Sessions => self.boxes.sel,
            Pane::Rules => self.side.sel_rule,
            Pane::Flows => self.side.flows.sel,
            Pane::Packets => self.side.packets.sel,
            Pane::ApiLogs => self.side.api.sel,
            Pane::Network => self.side.web.sel,
            Pane::Vars => self.side.vars.sel,
            p => match pane_filter_view(p) {
                Some(v) => self.window(v).start.saturating_add(self.window(v).sel),
                None => 0,
            },
        }
    }

    /// What is remembered of the view that is shown.
    pub open spec fn snapshot(self) -> SnapV {
        SnapV {
            pane: self.ui.focus,
            filter: match list_behind(self.ui.focus) {
                Some(v) => Some(self.filter(v)@),
                None => None,
            },
            cursor: self.cursor_place(),
            right_scroll: self.ui.right_scroll,
            right_focused: self.ui.right_focused,
            err_only: self.shown.err_only,
            vars_query: (self.side.vars.query.0@, self.side.vars.query.1@),
            vars_any: self.side.vars.any,
        }
    }

    /// The view is one that can be gone back to.
    pub open spec fn memorable(self) -> bool {
        self.ui.focus != Pane::Help && self.ui.focus != Pane::Pty
    }

    /// What remembering the view that is shown changes.
    pub open spec fn push_history_v(self, post: App) -> bool {
        if self.memorable() {
            &&& post == (App { ui: (Ui { nav_history: post.ui.nav_history, ..self.ui }), ..self })
            &&& snaps(post.ui.nav_history@) == capped(snaps(self.ui.nav_history@).push(self.snapshot()))
        } else {
            post == self
        }
    }

    /// Remembers the view that is shown. The oldest entries are dropped where there are too many.
    pub fn push_history(&mut self)
        ensures
            old(self).push_history_v(*final(self)),
    {
        if self.ui.focus == Pane::Help || self.ui.focus == Pane::Pty {
            return;
        }
        let cursor: usize = self.current_cursor_global();
        let filter: Option<ViewFilter> = match pane_filter_view(self.ui.focus) {
            Some(v) => Some(self.view_filter(v).copy()),
            None => None,
        };
        let snap: NavSnapshot = NavSnapshot {
            pane: self.ui.focus,
            filter,
            cursor,
            right_scroll: self.ui.right_scroll,
            right_focused: self.ui.right_focused,
            err_only: self.shown.err_only,
            vars_query: (self.side.vars.query.0.clone(), self.side.vars.query.1.clone()),
            vars_any: self.side.vars.any,
        };
        let ghost was = snaps(self.ui.nav_history@);
        self.ui.nav_history.push(snap);
        let ghost all = snaps(self.ui.nav_history@);
        assert(all =~= was.push(self.snapshot()));
        let ghost mut k: int = 0;
        assert(all.skip(0) =~= all);
        while self.ui.nav_history.len() > NAV_HISTORY_CAP
            invariant
                k + self.ui.nav_history@.len() == all.len(),
                k == 0 || self.ui.nav_history@.len() >= NAV_HISTORY_CAP,
                k >= 0,
                snaps(self.ui.nav_history@) == all.skip(k),
                *self == (App { ui: (Ui { nav_history: self.ui.nav_history, ..old(self).ui }), ..*old(self) }),
            decreases self.ui.nav_history@.len(),
        {
            let ghost before = self.ui.nav_history@;
            let _ = self.ui.nav_history.remove(0);
            proof {
                k = k + 1;
                assert forall|i: int| 0 <= i < self.ui.nav_history@.len() implies #[trigger] snaps(
                    self.ui.nav_history@,
                )[i] == all.skip(k)[i] by {
                    assert(snaps(before)[i + 1] == all.skip(k - 1)[i + 1]);
                }
                assert(snaps(self.ui.nav_history@) =~= all.skip(k));
            }
        }
    }

    /// The step that loads what a pane shows, where it is not there.
    pub open spec fn revisiting(p: Pane) -> Seq<StepV> {
        match p {
            Pane::ApiLogs => seq![StepV::Op(Op::LoadApiIfNeeded)],
            Pane::Network => seq![StepV::Op(Op::LoadWebIfNeeded)],
            Pane::Flows => seq![StepV::Op(Op::LoadFlows)],
            _ => match list_behind(p) {
                Some(v) => seq![StepV::Op(Op::LoadIfNeeded(v))],
                None => Seq::empty(),
            },
        }
    }

    fn first_load(&mut self, p: Pane)
        ensures
            *final(self) == (App { todo: final(self).todo, ..*old(self) }),
            final(self).plan() == App::revisiting(p) + old(self).plan(),
    {
        let ghost orig = *self;
        match p {
            Pane::ApiLogs => {
                self.first_op(Op::LoadApiIfNeeded);
            },
            Pane::Network => {
                self.first_op(Op::LoadWebIfNeeded);
            },
            Pane::Flows => {
                self.first_op(Op::LoadFlows);
            },
            _ => {
                match pane_filter_view(p) {
                    Some(v) => {
                        self.first_op(Op::LoadIfNeeded(v));
                    },
                    None => {},
                }
            },
        }
        assert(self.plan() =~= App::revisiting(p) + orig.plan());
    }

    /// What an optional entry of the history is.
    pub open spec fn back_v(self) -> Option<SnapV> {
        match self.ui.back {
            Some(s) => Some(s@),
            None => None,
        }
    }

    /// What going back changes at first: the pane, and its list is loaded.
    pub open spec fn go_back_v(self, post: App) -> bool {
        let h = snaps(self.ui.nav_history@);
        if h.len() == 0 {
            self.says(post, "back: no earlier view"@)
        } else {
            &&& post == (App {
                ui: (Ui { nav_history: post.ui.nav_history, back: post.ui.back, focus: h.last().pane, ..self.ui }),
                todo: post.todo,
                ..self
            })
            &&& snaps(post.ui.nav_history@) == h.drop_last()
            &&& post.back_v() == Some(h.last())
            &&& post.plan() == App::revisiting(h.last().pane) + seq![StepV::Op(Op::Restore)] + self.plan()
        }
    }

    /// Goes back to the view that was shown before.
    pub fn go_back(&mut self)
        ensures
            old(self).go_back_v(*final(self)),
    {
        let ghost orig = *self;
        let ghost h = snaps(self.ui.nav_history@);
        assert(h.len() == self.ui.nav_history@.len());
        if self.ui.nav_history.len() == 0 {
            self.say("back: no earlier view");
            return;
        }
        match self.ui.nav_history.pop() {
            Some(snap) => {
                assert(snaps(self.ui.nav_history@) =~= h.drop_last());
                assert(h.last() == snap@);
                let p: Pane = snap.pane;
                self.ui.focus = p;
                self.ui.back = Some(snap);
                self.first_op(Op::Restore);
                self.first_load(p);
                assert(self.plan() =~= App::revisiting(p) + seq![StepV::Op(Op::Restore)] + orig.plan());
            },
            None => {},
        }
    }

    /// The last steps of going back.
    pub open spec fn ending(s: SnapV) -> Seq<StepV> {
        seq![StepV::Op(Op::EndBack(s.right_focused, s.right_scroll))]
    }

    /// What restoring a view of a list changes.
    pub open spec fn restore_list_v(self, v: FilterView, s: SnapV, post: App) -> bool {
        &&& match s.filter {
            Some(f) => post.filter(v)@ == f,
            None => post.filter(v) == self.filter(v),
        }
        &&& post == (App {
            shown: (Shown { err_only: s.err_only, ..self.shown }),
            ui: (Ui { back: None, ..self.ui }),
            todo: post.todo,
            ..self.with_filter(v, post.filter(v))
        })
        &&& post.plan() == post.pushing(v) + seq![
            StepV::Op(Op::Fetch(v, minus(s.cursor, 200) as usize)),
            StepV::Op(Op::Place(v, s.cursor as usize)),
        ] + (if v == FilterView::Changes { seq![StepV::Op(Op::LoadHunks)] } else { Seq::empty() }) + App::ending(s)
            + self.plan()
    }

    /// The cursor that is restored among `n` rows.
    pub open spec fn cursor_among(c: int, n: int) -> int {
        smaller(c, less_one(n))
    }

    /// What restoring a view that shows no list of the engine changes, once the last steps are
    /// planned.
    pub open spec fn restore_plain_v(self, s: SnapV, post: App) -> bool {
        match s.pane {
            Pane::Sessions => {
                let n = self.boxes.sessions@.len() as int;
                if n > 0 {
                    (App { boxes: (Boxes { sel: App::cursor_among(s.cursor, n) as usize, ..self.boxes }), ..self }).box_moved_v(
                        post,
                    )
                } else {
                    post == self
                }
            },
            Pane::Rules => post == (App {
                side: (Side {
                    sel_rule: App::cursor_among(s.cursor, self.side.rules@.len() as int) as usize,
                    ..self.side
                }),
                ..self
            }),
            Pane::Flows => if self.side.flows.rows@.len() > 0 {
                &&& post == (App {
                    side: (Side {
                        flows: (crate::app::FlowList {
                            sel: App::cursor_among(s.cursor, self.side.flows.rows@.len() as int) as usize,
                            ..self.side.flows
                        }),
                        ..self.side
                    }),
                    todo: post.todo,
                    ..self
                })
                &&& post.plan() == seq![StepV::Op(Op::LoadFlowDetail)] + self.plan()
            } else {
                post == self
            },
            Pane::Packets => if self.side.packets.rows@.len() > 0 {
                &&& post == (App {
                    side: (Side {
                        packets: (crate::app::FlowList {
                            sel: App::cursor_among(s.cursor, self.side.packets.rows@.len() as int) as usize,
                            ..self.side.packets
                        }),
                        ..self.side
                    }),
                    todo: post.todo,
                    ..self
                })
                &&& post.plan() == seq![StepV::Op(Op::LoadPacketDetail)] + self.plan()
            } else {
                post == self
            },
            Pane::ApiLogs => post == (App {
                side: (Side {
                    api: (crate::app::RowList {
                        sel: App::cursor_among(s.cursor, self.side.api.rows@.len() as int) as usize,
                        ..self.side.api
                    }),
                    ..self.side
                }),
                ..self
            }),
            Pane::Network => post == (App {
                side: (Side {
                    web: (crate::app::RowList {
                        sel: App::cursor_among(s.cursor, self.side.web.rows@.len() as int) as usize,
                        ..self.side.web
                    }),
                    ..self.side
                }),
                ..self
            }),
            Pane::Vars => exists|mid: App| #[trigger]
                mid.load_vars_v(post) && mid.plan() == seq![StepV::Op(Op::VarCursor(s.cursor as usize))] + self.plan()
                    && (mid.side.vars.query.0@, mid.side.vars.query.1@) == s.vars_query && mid == (App {
                    side: (Side {
                        vars: (Vars { query: mid.side.vars.query, any: s.vars_any, ..self.side.vars }),
                        ..self.side
                    }),
                    todo: mid.todo,
                    ..self
                }),
            _ => post == self,
        }
    }

    /// What restoring the view that was gone back to changes.
    pub open spec fn restore_v(self, post: App) -> bool {
        match self.back_v() {
            None => post == self,
            Some(s) => match list_behind(s.pane) {
                Some(v) => self.restore_list_v(v, s, post),
                None => exists|mid: App| #[trigger]
                    mid.restore_plain_v(s, post) && mid.plan() == App::ending(s) + self.plan() && mid == (App {
                        shown: (Shown { err_only: s.err_only, ..self.shown }),
                        ui: (Ui { back: None, ..self.ui }),
                        todo: mid.todo,
                        ..self
                    }),
            },
        }
    }

    fn put_filter(&mut self, v: FilterView, f: Option<ViewFilter>)
        ensures
            *final(self) == (match f {
                Some(f) => old(self).with_filter(v, f),
                None => *old(self),
            }),
    {
        match f {
            Some(f) => {
                self.set_filter(v, f);
            },
            None => {},
        }
    }

    #[verifier::rlimit(60)]
    fn restore_list(&mut self, v: FilterView, snap: NavSnapshot)
        requires
            old(self).ui.back is None,
        ensures
            old(self).restore_list_v(v, snap@, *final(self)),
    {
        let ghost orig = *self;
        self.first_op(Op::EndBack(snap.right_focused, snap.right_scroll));
        if v == FilterView::Changes {
            self.first_op(Op::LoadHunks);
        }
        self.goto_view_pos(v, snap.cursor);
        self.shown.err_only = snap.err_only;
        self.put_filter(v, snap.filter);
        self.push_filter(v);
        assert(self.plan() =~= self.pushing(v) + seq![
            StepV::Op(Op::Fetch(v, minus(snap@.cursor, 200) as usize)),
            StepV::Op(Op::Place(v, snap@.cursor as usize)),
        ] + (if v == FilterView::Changes { seq![StepV::Op(Op::LoadHunks)] } else { Seq::empty() }) + App::ending(snap@)
            + orig.plan());
    }

    fn restore_plain(&mut self, snap: NavSnapshot)
        ensures
            old(self).restore_plain_v(snap@, *final(self)),
    {
        let ghost orig = *self;
        match snap.pane {
            Pane::Sessions => {
                let n: usize = self.boxes.sessions.len();
                if n > 0 {
                    self.boxes.sel = if snap.cursor <= n - 1 { snap.cursor } else { n - 1 };
                    self.on_box_cursor_moved();
                }
            },
            Pane::Rules => {
                let n: usize = self.side.rules.len();
                self.side.sel_rule = among(snap.cursor, n);
            },
            Pane::Flows => {
                let n: usize = self.side.flows.rows.len();
                if n > 0 {
                    self.side.flows.sel = among(snap.cursor, n);
                    self.first_op(Op::LoadFlowDetail);
                }
            },
            Pane::Packets => {
                let n: usize = self.side.packets.rows.len();
                if n > 0 {
                    self.side.packets.sel = among(snap.cursor, n);
                    self.first_op(Op::LoadPacketDetail);
                }
            },
            Pane::ApiLogs => {
                let n: usize = self.side.api.rows.len();
                self.side.api.sel = among(snap.cursor, n);
            },
            Pane::Network => {
                let n: usize = self.side.web.rows.len();
                self.side.web.sel = among(snap.cursor, n);
            },
            Pane::Vars => {
                let ghost q = snap@.vars_query;
                self.first_op(Op::VarCursor(snap.cursor));
                self.side.vars.query = snap.vars_query;
                self.side.vars.any = snap.vars_any;
                let ghost mid = *self;
                self.load_vars();
                assert(mid.load_vars_v(*self));
            },
            _ => {},
        }
    }

    /// Restores the view that was gone back to: its filter, its cursor, its detail.
    pub fn restore(&mut self)
        ensures
            old(self).restore_v(*final(self)),
    {
        let ghost orig = *self;
        match self.ui.back.take() {
            None => {},
            Some(snap) => {
                match pane_filter_view(snap.pane) {
                    Some(v) => {
                        self.restore_list(v, snap);
                    },
                    None => {
                        self.shown.err_only = snap.err_only;
                        self.first_op(Op::EndBack(snap.right_focused, snap.right_scroll));
                        let ghost mid = *self;
                        let ghost s = snap@;
                        self.restore_plain(snap);
                        assert(mid.restore_plain_v(s, *self));
                    },
                }
            },
        }
    }

    /// The change that `end_back` makes.
    pub open spec fn end_back_v(self, right_focused: bool, right_scroll: u16, post: App) -> bool {
        &&& (post.ui.status@ == "← back"@)
        &&& (post == (App {
                ui: (Ui { status: post.ui.status, right_focused, right_scroll, ..self.ui }),
                ..self
            }))
    }

    /// The detail of the view is restored.
    pub fn end_back(&mut self, right_focused: bool, right_scroll: u16)
        ensures
            old(self).end_back_v(right_focused, right_scroll, *final(self)),
    {
        self.ui.right_focused = right_focused;
        self.ui.right_scroll = right_scroll;
        self.say("← back");
    }

    /// The change that `var_cursor` makes.
    pub open spec fn var_cursor_v(self, cursor: usize, post: App) -> bool {
        post == (App {
                side: (Side {
                    vars: (Vars {
                        sel: App::cursor_among(cursor as int, self.side.vars.rows@.len() as int) as usize,
                        ..self.side.vars
                    }),
                    ..self.side
                }),
                ..self
            })
    }

    /// Puts the cursor of the variables back.
    pub fn var_cursor(&mut self, cursor: usize)
        ensures
            old(self).var_cursor_v(cursor, *final(self)),
    {
        let n: usize = self.side.vars.rows.len();
        self.side.vars.sel = among(cursor, n);
    }

    /// What narrowing a list to rows of some numbers changes, or dropping a narrowing of that
    /// kind where there are no numbers.
    pub open spec fn install_v(self, dest: FilterView, ids: Option<Seq<int>>, post: App) -> bool {
        if ids is None && !self.filter(dest).generated {
            post == self
        } else {
            &&& post.filter(dest)@ == (match ids {
                Some(v) => FilterV {
                    clauses: seq![
                        ClauseV {
                            kind: "ids"@,
                            pattern: id_pattern(v),
                            join: Join::And,
                            negate: false,
                            enabled: true,
                        },
                    ],
                    on: true,
                    generated: true,
                },
                None => FilterV::none(),
            })
            &&& post == (App {
                todo: post.todo,
                ..self.with_win(dest, (Win { sel: 0, ..self.win(dest) })).with_filter(dest, post.filter(dest))
            })
            &&& post.plan() == post.pushing(dest) + self.plan()
        }
    }

    /// Narrows a list to rows of some numbers; a typed filter stays where there are none.
    pub fn install_nav_filter(&mut self, dest: FilterView, ids: Option<Vec<i64>>)
        ensures
            old(self).install_v(
                dest,
                match ids {
                    Some(v) => Some(ints(v@)),
                    None => None,
                },
                *final(self),
            ),
    {
        let ghost orig = *self;
        let f: ViewFilter = match ids {
            Some(v) => {
                let mut cs: Vec<Clause> = Vec::new();
                cs.push(
                    Clause {
                        m: Match { kind: own("ids"), pattern: pattern_of_ids(&v) },
                        join: Join::And,
                        negate: false,
                        enabled: true,
                    },
                );
                assert(clauses(cs@) =~= seq![
                    ClauseV {
                        kind: "ids"@,
                        pattern: id_pattern(ints(v@)),
                        join: Join::And,
                        negate: false,
                        enabled: true,
                    },
                ]);
                ViewFilter { clauses: cs, on: true, generated: true }
            },
            None => {
                if !self.view_filter(dest).generated {
                    return;
                }
                ViewFilter::new()
            },
        };
        self.set_filter(dest, f);
        self.set_sel(dest, 0);
        self.push_filter(dest);
        assert(self.plan() =~= self.pushing(dest) + orig.plan());
    }

    /// The numbers that are collected, where there are any.
    pub open spec fn collected(v: Seq<int>) -> Option<Seq<int>> {
        if v.len() == 0 { None } else { Some(v) }
    }

    /// What turning the collected numbers into those of a list's rows changes.
    pub open spec fn translate_v(self, from: Domain, dest: FilterView, post: App) -> bool {
        let ids = ints(self.jobs.nav_ids@);
        match self.sid() {
            Some(sid) => if ids.len() == 0 {
                self.install_v(dest, None, post)
            } else if from == domain_of(dest) {
                self.install_v(dest, Some(ids), post)
            } else {
                &&& post == (App { todo: post.todo, ..self })
                &&& post.plan() == seq![
                    StepV::Call(
                        "review.map_ids"@,
                        seq![
                            JV::Str(sid),
                            JV::Str(domain_name(from)),
                            JV::Arr(number_values(ids)),
                            JV::Str(domain_name(domain_of(dest))),
                        ],
                        Then::Translated(dest),
                    ),
                ] + self.plan()
            },
            None => self.install_v(dest, None, post),
        }
    }

    /// Turns the collected numbers into those of a list's rows, and narrows the list to them.
    pub fn translate(&mut self, from: Domain, dest: FilterView)
        ensures
            old(self).translate_v(from, dest, *final(self)),
    {
        let sid: Option<String> = match self.cur_sid() {
            Some(s) => Some(own(s)),
            None => None,
        };
        let ids: Vec<i64> = copy_numbers(&self.jobs.nav_ids);
        assert(ids@.len() == ints(ids@).len());
        match sid {
            Some(s) => {
                let to: Domain = domain_of_list(dest);
                if ids.len() == 0 {
                    self.install_nav_filter(dest, None);
                } else if from == to {
                    self.install_nav_filter(dest, Some(ids));
                } else {
                    self.first_call(
                        "review.map_ids",
                        list4(
                            Json::Str(s),
                            Json::text(name_of_domain(from)),
                            arr(values_of_numbers(&ids)),
                            Json::text(name_of_domain(to)),
                        ),
                        Then::Translated(dest),
                    );
                }
            },
            None => {
                self.install_nav_filter(dest, None);
            },
        }
    }

    /// The change that `translated` makes.
    pub open spec fn translated_v(self, dest: FilterView, r: Result<Json, String>, post: App) -> bool {
        self.install_v(
                dest,
                match rep_v(r) {
                    Ok(j) => match j.arr() {
                        Some(a) => App::collected(numbers_in(a)),
                        None => None,
                    },
                    Err(_) => None,
                },
                post,
            )
    }

    /// Takes in the numbers of a list's rows, and narrows the list to them.
    pub fn translated(&mut self, dest: FilterView, r: Result<Json, String>)
        ensures
            old(self).translated_v(dest, r, *final(self)),
    {
        let ids: Option<Vec<i64>> = match r {
            Ok(j) => match j.as_arr() {
                Some(a) => {
                    let v: Vec<i64> = collect_numbers(a);
                    assert(v@.len() == ints(v@).len());
                    if v.len() == 0 {
                        None
                    } else {
                        Some(v)
                    }
                },
                None => None,
            },
            Err(_) => None,
        };
        self.install_nav_filter(dest, ids);
    }

    /// The change that `writer_reply` makes.
    pub open spec fn writer_reply_v(self, r: Result<Json, String>, post: App) -> bool {
        &&& (post == (App { jobs: (Jobs { nav_ids: post.jobs.nav_ids, ..self.jobs }), ..self }))
        &&& (post.jobs.nav_ids@ == (match rep_v(r) {
                Ok(j) => match j.i64() {
                    Some(n) => if self.jobs.nav_ids@.contains(n as i64) {
                        self.jobs.nav_ids@
                    } else {
                        self.jobs.nav_ids@.push(n as i64)
                    },
                    None => self.jobs.nav_ids@,
                },
                Err(_) => self.jobs.nav_ids@,
            }))
    }

    /// Takes in a process that wrote the change at the cursor; each counts once.
    pub fn writer_reply(&mut self, r: Result<Json, String>)
        ensures
            old(self).writer_reply_v(r, *final(self)),
    {
        match r {
            Ok(j) => {
                match j.as_i64() {
                    Some(n) => {
                        if !holds_number(&self.jobs.nav_ids, n) {
                            self.jobs.nav_ids.push(n);
                        }
                    },
                    None => {},
                }
            },
            Err(_) => {},
        }
    }

    /// The change that `output_pipeline_reply` makes.
    pub open spec fn output_pipeline_reply_v(self, r: Result<Json, String>, post: App) -> bool {
        &&& (post == (App { jobs: (Jobs { nav_ids: post.jobs.nav_ids, ..self.jobs }), ..self }))
        &&& (ints(post.jobs.nav_ids@) == one_number(
                match rep_v(r) {
                    Ok(j) => j.get_i64("id"@),
                    Err(_) => None,
                },
            ))
    }

    /// Takes in the pipeline of the output at the cursor.
    pub fn output_pipeline_reply(&mut self, r: Result<Json, String>)
        ensures
            old(self).output_pipeline_reply_v(r, *final(self)),
    {
        let n: Option<i64> = match r {
            Ok(j) => j.get_i64("id"),
            Err(_) => None,
        };
        self.jobs.nav_ids = vec_of(n);
    }

    /// The row at the cursor of a list.
    pub open spec fn row_at(self, v: FilterView) -> Option<JV> {
        let w = self.win(v);
        if w.sel < w.rows@.len() { Some(w.rows@[w.sel as int]@) } else { None }
    }

    /// What the numbers are of that the row at the cursor of a list leads to another list by.
    pub open spec fn nav_domain(src: FilterView, dest: FilterView) -> Domain {
        match src {
            FilterView::BuildEdges => Domain::Edge,
            FilterView::Outputs => if dest == FilterView::Pipelines { Domain::Pipeline } else { Domain::Process },
            FilterView::Pipelines => if dest == FilterView::BuildEdges { Domain::Pipeline } else { Domain::Process },
            _ => Domain::Process,
        }
    }

    /// The numbers that are known of the row at the cursor of a list.
    pub open spec fn nav_numbers(self, src: FilterView, dest: FilterView) -> Seq<int> {
        match self.row_at(src) {
            None => Seq::empty(),
            Some(r) => match src {
                FilterView::Changes => Seq::empty(),
                FilterView::Procs => one_number(process_of(r)),
                FilterView::Outputs => if dest == FilterView::Pipelines {
                    Seq::empty()
                } else {
                    one_number(r.get_i64("process_id"@))
                },
                FilterView::Pipelines => if dest == FilterView::BuildEdges {
                    one_number(r.get_i64("id"@))
                } else {
                    match r.get_arr("processes"@) {
                        Some(a) => numbers_in(a),
                        None => Seq::empty(),
                    }
                },
                FilterView::BuildEdges => one_number(r.get_i64("id"@)),
            },
        }
    }

    /// The calls with which further numbers are collected.
    pub open spec fn nav_calls(self, src: FilterView, dest: FilterView) -> Seq<StepV> {
        match self.sid() {
            None => Seq::empty(),
            Some(sid) => if src == FilterView::Changes {
                match self.change_path() {
                    Some(p) => seq![
                        StepV::Call("first_writer_id"@, seq![JV::Str(sid), JV::Str(p)], Then::Writer),
                        StepV::Call("writer_id"@, seq![JV::Str(sid), JV::Str(p)], Then::Writer),
                    ],
                    None => Seq::empty(),
                }
            } else if src == FilterView::Outputs && dest == FilterView::Pipelines {
                match self.item_id(src) {
                    Some(n) => seq![
                        StepV::Call("output_pipeline"@, seq![JV::Str(sid), JV::Int(n as int)], Then::OutputPipeline),
                    ],
                    None => Seq::empty(),
                }
            } else {
                Seq::empty()
            },
        }
    }

    /// What the variable at the cursor leads to another list by.
    pub open spec fn var_source(self) -> (Domain, Seq<int>) {
        let v = self.side.vars;
        if v.sel < v.rows@.len() {
            let r = v.rows@[v.sel as int]@;
            match r.get_i64("edge_id"@) {
                Some(n) => (Domain::Edge, seq![n]),
                None => (Domain::Pipeline, one_number(r.get_i64("pipeline_id"@))),
            }
        } else {
            (Domain::Pipeline, Seq::empty())
        }
    }

    /// What going to a pane by the row at the cursor changes at first.
    pub open spec fn nav_v(self, pane: Pane, post: App) -> bool {
        match (list_of(pane), list_of(self.ui.focus)) {
            (Some(dest), src) => if self.ui.focus == Pane::Vars {
                &&& post == (App { jobs: (Jobs { nav_ids: post.jobs.nav_ids, ..self.jobs }), todo: post.todo, ..self })
                &&& ints(post.jobs.nav_ids@) == self.var_source().1
                &&& post.plan() == seq![
                    StepV::Op(Op::Translate(self.var_source().0, dest)),
                    StepV::Op(Op::Focus(pane)),
                ] + self.plan()
            } else if src is Some && src->0 != dest {
                &&& post == (App { jobs: (Jobs { nav_ids: post.jobs.nav_ids, ..self.jobs }), todo: post.todo, ..self })
                &&& ints(post.jobs.nav_ids@) == self.nav_numbers(src->0, dest)
                &&& post.plan() == self.nav_calls(src->0, dest) + seq![
                    StepV::Op(Op::Translate(App::nav_domain(src->0, dest), dest)),
                    StepV::Op(Op::Focus(pane)),
                ] + self.plan()
            } else {
                post == (App { ui: (Ui { focus: pane, ..self.ui }), ..self })
            },
            _ => post == (App { ui: (Ui { focus: pane, ..self.ui }), ..self }),
        }
    }

    fn var_numbers(&self) -> (r: (Domain, Vec<i64>))
        ensures
            r.0 == self.var_source().0,
            ints(r.1@) == self.var_source().1,
    {
        let v: &Vars = &self.side.vars;
        if v.sel < v.rows.len() {
            let r: &Json = &v.rows[v.sel];
            match r.get_i64("edge_id") {
                Some(n) => (Domain::Edge, vec_of(Some(n))),
                None => (Domain::Pipeline, vec_of(r.get_i64("pipeline_id"))),
            }
        } else {
            (Domain::Pipeline, vec_of(None))
        }
    }

    fn numbers_at(&self, src: FilterView, dest: FilterView) -> (r: Vec<i64>)
        ensures
            ints(r@) == self.nav_numbers(src, dest),
    {
        let w: &Win = self.window(src);
        if w.sel >= w.rows.len() {
            return vec_of(None);
        }
        let row: &Json = &w.rows[w.sel];
        match src {
            FilterView::Changes => vec_of(None),
            FilterView::Procs => vec_of(process_number(row)),
            FilterView::Outputs => if dest == FilterView::Pipelines {
                vec_of(None)
            } else {
                vec_of(row.get_i64("process_id"))
            },
            FilterView::Pipelines => if dest == FilterView::BuildEdges {
                vec_of(row.get_i64("id"))
            } else {
                match row.get_arr("processes") {
                    Some(a) => collect_numbers(a),
                    None => vec_of(None),
                }
            },
            FilterView::BuildEdges => vec_of(row.get_i64("id")),
        }
    }

    fn first_nav_calls(&mut self, src: FilterView, dest: FilterView)
        ensures
            *final(self) == (App { todo: final(self).todo, ..*old(self) }),
            final(self).plan() == old(self).nav_calls(src, dest) + old(self).plan(),
    {
        let ghost orig = *self;
        let sid: Option<String> = match self.cur_sid() {
            Some(s) => Some(own(s)),
            None => None,
        };
        match sid {
            Some(s) => {
                if src == FilterView::Changes {
                    let path: Option<String> = match self.cur_change_path() {
                        Some(p) => Some(own(p)),
                        None => None,
                    };
                    match path {
                        Some(p) => {
                            self.first_call("writer_id", list2(Json::Str(s.clone()), Json::Str(p.clone())), Then::Writer);
                            self.first_call("first_writer_id", list2(Json::Str(s), Json::Str(p)), Then::Writer);
                        },
                        None => {},
                    }
                } else if src == FilterView::Outputs && dest == FilterView::Pipelines {
                    match self.selected_item_id(src) {
                        Some(n) => {
                            self.first_call(
                                "output_pipeline",
                                list2(Json::Str(s), Json::Int(n)),
                                Then::OutputPipeline,
                            );
                        },
                        None => {},
                    }
                }
            },
            None => {},
        }
        assert(self.plan() =~= orig.nav_calls(src, dest) + orig.plan());
    }

    /// Goes to a pane. A list there is narrowed to what belongs to the row at the cursor.
    pub fn nav(&mut self, pane: Pane)
        ensures
            old(self).nav_v(pane, *final(self)),
    {
        let ghost orig = *self;
        let src: Option<FilterView> = self.focus_filter_view();
        match list_of_pane(pane) {
            Some(dest) => {
                if self.ui.focus == Pane::Vars {
                    let (domain, ids) = self.var_numbers();
                    self.jobs.nav_ids = ids;
                    self.first_op(Op::Focus(pane));
                    self.first_op(Op::Translate(domain, dest));
                    assert(self.plan() =~= seq![
                        StepV::Op(Op::Translate(domain, dest)),
                        StepV::Op(Op::Focus(pane)),
                    ] + orig.plan());
                    return;
                }
                match src {
                    Some(s) => {
                        if s != dest {
                            let ids: Vec<i64> = self.numbers_at(s, dest);
                            let domain: Domain = match s {
                                FilterView::BuildEdges => Domain::Edge,
                                FilterView::Outputs => if dest == FilterView::Pipelines {
                                    Domain::Pipeline
                                } else {
                                    Domain::Process
                                },
                                FilterView::Pipelines => if dest == FilterView::BuildEdges {
                                    Domain::Pipeline
                                } else {
                                    Domain::Process
                                },
                                _ => Domain::Process,
                            };
                            self.first_op(Op::Focus(pane));
                            self.first_op(Op::Translate(domain, dest));
                            self.first_nav_calls(s, dest);
                            self.jobs.nav_ids = ids;
                            assert(self.plan() =~= orig.nav_calls(s, dest) + seq![
                                StepV::Op(Op::Translate(domain, dest)),
                                StepV::Op(Op::Focus(pane)),
                            ] + orig.plan());
                            return;
                        }
                    },
                    None => {},
                }
            },
            None => {},
        }
        self.ui.focus = pane;
    }

    /// The keys go to the list of the pane again, and its detail is at its beginning.
    pub open spec fn snapped(self) -> App {
        App { ui: (Ui { right_focused: false, right_scroll: 0, ..self.ui }), ..self }
    }

    pub fn snap_left(&mut self)
        ensures
            *final(self) == old(self).snapped(),
    {
        self.ui.right_focused = false;
        self.ui.right_scroll = 0;
    }

    /// What the pane that is gone to changes.
    pub open spec fn arrive_v(self, pane: Pane, post: App) -> bool {
        match pane {
            Pane::Changes | Pane::Processes | Pane::Outputs | Pane::ApiLogs | Pane::Network | Pane::Pipelines
            | Pane::BuildEdges => exists|mid: App| #[trigger]
                mid.nav_v(pane, post) && mid == (App { todo: mid.todo, ..self }) && mid.plan() == App::revisiting(pane)
                    + self.plan(),
            Pane::Flows => (App { ui: (Ui { focus: Pane::Flows, ..self.ui }), ..self }).load_flows_v(post),
            Pane::Help => post == (App { ui: (Ui { focus: Pane::Help, out_scroll: 0, ..self.ui }), ..self }),
            Pane::Vars => {
                let q = self.side.vars.query;
                let ask = q.0@.len() == 0 && q.1@.len() == 0;
                &&& (App { ui: (Ui { focus: Pane::Vars, ..self.ui }), ..self }).load_vars_v(
                    App { ui: (Ui { modal: self.ui.modal, ..post.ui }), ..post },
                )
                &&& ask ==> modal_v(post.ui.modal) == Some(ModalV::VarQuery { buf: Seq::empty() })
                &&& !ask ==> post.ui.modal == self.ui.modal
            },
            _ => post == (App { ui: (Ui { focus: pane, ..self.ui }), ..self }),
        }
    }

    fn arrive(&mut self, pane: Pane)
        ensures
            old(self).arrive_v(pane, *final(self)),
    {
        match pane {
            Pane::Changes | Pane::Processes | Pane::Outputs | Pane::ApiLogs | Pane::Network | Pane::Pipelines
            | Pane::BuildEdges => {
                self.first_load(pane);
                let ghost mid = *self;
                self.nav(pane);
                assert(mid.nav_v(pane, *self));
            },
            Pane::Flows => {
                self.ui.focus = Pane::Flows;
                self.load_flows();
            },
            Pane::Help => {
                self.ui.focus = Pane::Help;
                self.ui.out_scroll = 0;
            },
            Pane::Vars => {
                self.ui.focus = Pane::Vars;
                self.load_vars();
                let ghost loaded = *self;
                if self.side.vars.query.0.as_str().is_empty() && self.side.vars.query.1.as_str().is_empty() {
                    let buf: String = String::new();
                    assert(buf@ =~= Seq::<char>::empty());
                    self.ui.modal = Some(Modal::VarQuery { buf });
                }
                assert((App { ui: (Ui { modal: old(self).ui.modal, ..self.ui }), ..*self }) == loaded);
            },
            _ => {
                self.ui.focus = pane;
            },
        }
    }

    /// What visiting a pane changes.
    pub open spec fn visit_v(self, pane: Pane, post: App) -> bool {
        exists|mid: App| #[trigger]
            mid.snapped().arrive_v(pane, post) && (if pane != self.ui.focus { self.push_history_v(mid) } else { mid == self })
    }

    /// Goes to a pane; what was shown is remembered.
    pub fn visit(&mut self, pane: Pane)
        ensures
            old(self).visit_v(pane, *final(self)),
    {
        if pane != self.ui.focus {
            self.push_history();
        }
        let ghost mid = *self;
        self.snap_left();
        self.arrive(pane);
        assert(mid.snapped().arrive_v(pane, *self));
    }

    /// What going to a pane changes.
    pub open spec fn go_to_pane_v(self, pane: Pane, post: App) -> bool {
        if pane != self.ui.focus && self.shown.err_only {
            &&& post == (App { shown: (Shown { err_only: false, ..self.shown }), todo: post.todo, ..self })
            &&& post.plan() == (match list_of(self.ui.focus) {
                Some(v) => post.pushing(v),
                None => Seq::empty(),
            }) + seq![StepV::Op(Op::Visit(pane))] + self.plan()
        } else {
            self.visit_v(pane, post)
        }
    }

    /// Goes to a pane. That only errors are shown ends with the pane that it was chosen on.
    pub fn go_to_pane(&mut self, pane: Pane)
        ensures
            old(self).go_to_pane_v(pane, *final(self)),
    {
        let ghost orig = *self;
        if pane != self.ui.focus && self.shown.err_only {
            self.shown.err_only = false;
            self.first_op(Op::Visit(pane));
            match self.focus_filter_view() {
                Some(v) => {
                    self.push_filter(v);
                },
                None => {},
            }
            assert(self.plan() =~= (match list_of(self.ui.focus) {
                Some(v) => self.pushing(v),
                None => Seq::empty(),
            }) + seq![StepV::Op(Op::Visit(pane))] + orig.plan());
        } else {
            self.visit(pane);
        }
    }

    /// The detail of the pane is a text that can be scrolled: of every pane but the changes, whose
    /// diff has a cursor of its own, and those that fill the screen.
    pub open spec fn scrollable(p: Pane) -> bool {
        match p {
            Pane::Changes | Pane::Hunks | Pane::Help | Pane::Pty => false,
            _ => true,
        }
    }

    pub fn right_pane_scrollable(&self) -> (r: bool)
        ensures
            r == App::scrollable(self.ui.focus),
    {
        match self.ui.focus {
            Pane::Changes | Pane::Hunks | Pane::Help | Pane::Pty => false,
            _ => true,
        }
    }

    /// What is shown once the keys go to the other half of the screen.
    pub open spec fn next_pane_v(self) -> App {
        match self.ui.focus {
            Pane::Changes => App { ui: (Ui { focus: Pane::Hunks, ..self.ui }), ..self },
            Pane::Hunks => App { ui: (Ui { focus: Pane::Changes, ..self.ui }), ..self },
            Pane::Pty => App { ui: (Ui { focus: Pane::Sessions, ..self.ui }), ..self },
            p => if App::scrollable(p) {
                let on = !self.ui.right_focused;
                App {
                    ui: (Ui {
                        right_focused: on,
                        right_scroll: if p == Pane::Outputs {
                            if on { self.ui.out_follow_scroll } else { self.ui.right_scroll }
                        } else if on {
                            self.ui.right_scroll
                        } else {
                            0
                        },
                        ..self.ui
                    }),
                    ..self
                }
            } else {
                self
            },
        }
    }

    /// The keys go to the other half of the screen.
    pub fn next_pane(&mut self)
        ensures
            *final(self) == old(self).next_pane_v(),
    {
        match self.ui.focus {
            Pane::Changes => {
                self.ui.focus = Pane::Hunks;
            },
            Pane::Hunks => {
                self.ui.focus = Pane::Changes;
            },
            Pane::Pty => {
                self.ui.focus = Pane::Sessions;
            },
            _ => {
                if self.right_pane_scrollable() {
                    self.ui.right_focused = !self.ui.right_focused;
                    if self.ui.right_focused {
                        if self.ui.focus == Pane::Outputs {
                            self.ui.right_scroll = self.ui.out_follow_scroll;
                        }
                    } else if self.ui.focus != Pane::Outputs {
                        self.ui.right_scroll = 0;
                    }
                }
            },
        }
    }

    /// What following a place of the detail of a variable changes.
    pub open spec fn var_item_act_v(self, post: App) -> bool {
        let items = self.var_detail_v().items;
        if items.len() == 0 {
            post == self
        } else {
            match items[smaller(self.side.vars.item as int, items.len() - 1)].1 {
                NavV::Query(name) => exists|mid: App| #[trigger]
                    self.push_history_v(mid) && exists|asks: App| #[trigger]
                        asks.load_vars_v(post) && asks.side.vars.query.0@ == name && asks.side.vars.query.1@ == name
                            && asks == (App {
                            side: (Side {
                                vars: (Vars { query: asks.side.vars.query, any: true, ..mid.side.vars }),
                                ..mid.side
                            }),
                            ..mid.snapped()
                        }),
                NavV::Jump(i) => post == (App {
                    side: (Side { vars: (Vars { sel: i as usize, item: 0, ..self.side.vars }), ..self.side }),
                    ..self.snapped()
                }),
            }
        }
    }

    /// Follows the place of the detail that the cursor is on.
    pub fn var_item_act(&mut self)
        ensures
            old(self).var_item_act_v(*final(self)),
    {
        let (_, items) = var_detail(self);
        let ghost v = places(items@);
        assert(v.len() == items@.len());
        if items.len() == 0 {
            return;
        }
        let last: usize = items.len() - 1;
        let at: usize = if self.side.vars.item <= last { self.side.vars.item } else { last };
        assert(v[at as int].1 == items@[at as int].1@);
        match &items[at].1 {
            VarNavAction::Query(name) => {
                self.push_history();
                let ghost mid = *self;
                assert(old(self).push_history_v(mid));
                self.side.vars.any = true;
                self.side.vars.query = (name.clone(), name.clone());
                self.snap_left();
                let ghost asks = *self;
                self.load_vars();
                assert(asks.load_vars_v(*self));
            },
            VarNavAction::Jump(i) => {
                self.side.vars.sel = *i;
                self.side.vars.item = 0;
                self.snap_left();
            },
        }
    }

    /// What opening the row at the cursor changes.
    pub open spec fn open_v(self, post: App) -> bool {
        match self.ui.focus {
            Pane::Sessions => exists|mid: App| #[trigger]
                self.push_history_v(mid) && (App { ui: (Ui { focus: Pane::Changes, ..mid.ui }), ..mid }).load_v(
                    FilterView::Changes,
                    post,
                ),
            Pane::Changes => exists|mid: App| #[trigger]
                self.push_history_v(mid) && (App { ui: (Ui { focus: Pane::Hunks, ..mid.ui }), ..mid }).load_hunks_v(post),
            Pane::Flows => exists|mid: App| #[trigger] self.push_history_v(mid) && mid.open_packets_v(post),
            Pane::Vars => if self.ui.right_focused {
                self.var_item_act_v(post)
            } else if self.var_detail_v().items.len() > 0 {
                (App {
                    side: (Side { vars: (Vars { item: 0, ..self.side.vars }), ..self.side }),
                    ui: (Ui { right_focused: true, ..self.ui }),
                    ..self
                }).var_item_move_v(0, post)
            } else {
                post == self
            },
            _ => post == self,
        }
    }

    /// Opens the row at the cursor.
    pub fn open(&mut self)
        ensures
            old(self).open_v(*final(self)),
    {
        match self.ui.focus {
            Pane::Sessions => {
                self.push_history();
                let ghost mid = *self;
                assert(old(self).push_history_v(mid));
                self.ui.focus = Pane::Changes;
                self.load_list(FilterView::Changes);
            },
            Pane::Changes => {
                self.push_history();
                let ghost mid = *self;
                assert(old(self).push_history_v(mid));
                self.ui.focus = Pane::Hunks;
                self.load_hunks();
            },
            Pane::Flows => {
                self.push_history();
                let ghost mid = *self;
                assert(old(self).push_history_v(mid));
                self.open_packets();
            },
            Pane::Vars => {
                if self.ui.right_focused {
                    self.var_item_act();
                    return;
                }
                let (_, items) = var_detail(self);
                assert(places(items@).len() == items@.len());
                if items.len() > 0 {
                    self.ui.right_focused = true;
                    self.side.vars.item = 0;
                    self.var_item_move(0);
                }
            },
            _ => {},
        }
    }
}

fn among(c: usize, n: usize) -> (r: usize)
    ensures
        r as int == App::cursor_among(c as int, n as int),
{
    let last: usize = if n > 0 { n - 1 } else { 0 };
    if c <= last {
        c
    } else {
        last
    }
}

fn copy_numbers(v: &Vec<i64>) -> (r: Vec<i64>)
    ensures
        r@ == v@,
{
    let mut out: Vec<i64> = Vec::new();
    let mut i: usize = 0;
    while i < v.len()
        invariant
            i <= v@.len(),
            out@ == v@.take(i as int),
        decreases v@.len() - i,
    {
        out.push(v[i]);
        i += 1;
        assert(out@ =~= v@.take(i as int));
    }
    assert(v@.take(v@.len() as int) =~= v@);
    out
}

fn holds_number(v: &Vec<i64>, n: i64) -> (r: bool)
    ensures
        r == v@.contains(n),
{
    let mut i: usize = 0;
    while i < v.len()
        invariant
            i <= v@.len(),
            forall|k: int| 0 <= k < i ==> v@[k] != n,
        decreases v@.len() - i,
    {
        if v[i] == n {
            assert(v@[i as int] == n);
            return true;
        }
        i += 1;
    }
    false
}

/// The history never holds more entries than it may.
pub proof fn law_history_is_bounded(a: App, b: App)
    requires
        a.push_history_v(b),
        a.ui.nav_history@.len() <= NAV_HISTORY_CAP,
    ensures
        b.ui.nav_history@.len() <= NAV_HISTORY_CAP,
{
    assert(snaps(b.ui.nav_history@).len() == b.ui.nav_history@.len());
    assert(snaps(a.ui.nav_history@).len() == a.ui.nav_history@.len());
}

/// Going back leads to the view that was remembered last: its pane, its filter, its cursor.
pub proof fn law_back_leads_where_it_came_from(a: App, b: App, c: App)
    requires
        a.memorable(),
        a.push_history_v(b),
        b.go_back_v(c),
    ensures
        c.back_v() == Some(a.snapshot()),
        c.ui.focus == a.ui.focus,
        a.ui.nav_history@.len() < NAV_HISTORY_CAP ==> snaps(c.ui.nav_history@) == snaps(a.ui.nav_history@),
{
    let h = snaps(a.ui.nav_history@);
    assert(h.len() == a.ui.nav_history@.len());
    let p = h.push(a.snapshot());
    assert(capped(p).last() == a.snapshot());
    if a.ui.nav_history@.len() < NAV_HISTORY_CAP {
        assert(p.drop_last() =~= h);
    }
}

/// Tab in the changes goes to the diff and back.
pub proof fn law_tab_returns(a: App)
    requires
        a.ui.focus == Pane::Changes || a.ui.focus == Pane::Hunks,
    ensures
        a.next_pane_v().next_pane_v() == a,
{
}

/// Going to a list that nothing follows from the row at the cursor leaves a typed filter as it is.
pub proof fn law_typed_filter_survives_navigation(a: App, b: App, dest: FilterView)
    requires
        !a.filter(dest).generated,
        a.install_v(dest, None, b),
    ensures
        b == a,
{
}

} // verus!
