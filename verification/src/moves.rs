//! Moving the cursor: by one row, by a page, to either end.

use vstd::prelude::*;

use crate::app::{App, Boxes, Diff, FlowList, Op, RowList, Side, Ui, Vars, PAGE_SIZE};
#[allow(unused_imports)]
use crate::app::StepV;
#[allow(unused_imports)]
use crate::filters::list_of;
use crate::filters::list_of_pane;
#[allow(unused_imports)]
use crate::lists::{minus, smaller};
use crate::types::{FilterView, Pane};

verus! {

/// The panes whose rows are all held here.
pub open spec fn holds_rows(p: Pane) -> bool {
    match p {
        Pane::Sessions | Pane::Rules | Pane::Flows | Pane::Packets | Pane::ApiLogs | Pane::Network | Pane::Vars => true,
        _ => false,
    }
}

/// `n` times the same step.
pub open spec fn times(n: nat, s: StepV) -> Seq<StepV> {
    Seq::new(n, |i: int| s)
}

/// The steps of a page.
pub open spec fn page_steps(v: FilterView, down: bool) -> Seq<StepV> {
    times(PAGE_SIZE as nat, StepV::Op(Op::Advance(v, down)))
}

/// A scroll that is moved down or up by `n` lines, within what 16 bits hold.
pub open spec fn scrolled(s: u16, n: int, down: bool) -> u16 {
    if down {
        if s + n > 0xffff { 0xffff } else { (s + n) as u16 }
    } else if s > n {
        (s - n) as u16
    } else {
        0
    }
}

fn scroll(s: u16, n: u16, down: bool) -> (r: u16)
    ensures
        r == scrolled(s, n as int, down),
{
    if down {
        if s as u32 + n as u32 > 0xffff {
            0xffff
        } else {
            s + n
        }
    } else if s > n {
        s - n
    } else {
        0
    }
}

impl App {
    /// The number of rows of the pane.
    pub open spec fn row_count(self) -> int {
        match self.ui.focus {
            Pane::Sessions => self.boxes.sessions@.len() as int,
            Pane::Rules => self.side.rules@.len() as int,
            Pane::Flows => self.side.flows.rows@.len() as int,
            Pane::Packets => self.side.packets.rows@.len() as int,
            Pane::ApiLogs => self.side.api.rows@.len() as int,
            Pane::Network => self.side.web.rows@.len() as int,
            Pane::Vars => self.side.vars.rows@.len() as int,
            _ => 0,
        }
    }

    fn rows_here(&self) -> (r: usize)
        ensures
            r as int == self.row_count(),
    {
        match self.ui.focus {
            Pane::Sessions => self.boxes.sessions.len(),
            Pane::Rules => self.side.rules.len(),
            Pane::Flows => self.side.flows.rows.len(),
            Pane::Packets => self.side.packets.rows.len(),
            Pane::ApiLogs => self.side.api.rows.len(),
            Pane::Network => self.side.web.rows.len(),
            Pane::Vars => self.side.vars.rows.len(),
            _ => 0,
        }
    }

    /// The row of the pane that the cursor is on.
    pub open spec fn row_cursor(self) -> int {
        match self.ui.focus {
            Pane::Sessions => self.boxes.sel as int,
            Pane::Rules => self.side.sel_rule as int,
            Pane::Flows => self.side.flows.sel as int,
            Pane::Packets => self.side.packets.sel as int,
            Pane::ApiLogs => self.side.api.sel as int,
            Pane::Network => self.side.web.sel as int,
            Pane::Vars => self.side.vars.sel as int,
            _ => 0,
        }
    }

    fn cursor_here(&self) -> (r: usize)
        ensures
            r as int == self.row_cursor(),
    {
        match self.ui.focus {
            Pane::Sessions => self.boxes.sel,
            Pane::Rules => self.side.sel_rule,
            Pane::Flows => self.side.flows.sel,
            Pane::Packets => self.side.packets.sel,
            Pane::ApiLogs => self.side.api.sel,
            Pane::Network => self.side.web.sel,
            Pane::Vars => self.side.vars.sel,
            _ => 0,
        }
    }

    /// The state with the cursor of the pane on another row.
    pub open spec fn with_cursor(self, i: usize) -> App {
        match self.ui.focus {
            Pane::Sessions => App { boxes: (Boxes { sel: i, ..self.boxes }), ..self },
            Pane::Rules => App { side: (Side { sel_rule: i, ..self.side }), ..self },
            Pane::Flows => App { side: (Side { flows: (FlowList { sel: i, ..self.side.flows }), ..self.side }), ..self },
            Pane::Packets => App {
                side: (Side { packets: (FlowList { sel: i, ..self.side.packets }), ..self.side }),
                ..self
            },
            Pane::ApiLogs => App { side: (Side { api: (RowList { sel: i, ..self.side.api }), ..self.side }), ..self },
            Pane::Network => App { side: (Side { web: (RowList { sel: i, ..self.side.web }), ..self.side }), ..self },
            Pane::Vars => App { side: (Side { vars: (Vars { sel: i, ..self.side.vars }), ..self.side }), ..self },
            _ => self,
        }
    }

    fn put_cursor(&mut self, i: usize)
        ensures
            *final(self) == old(self).with_cursor(i),
    {
        match self.ui.focus {
            Pane::Sessions => {
                self.boxes.sel = i;
            },
            Pane::Rules => {
                self.side.sel_rule = i;
            },
            Pane::Flows => {
                self.side.flows.sel = i;
            },
            Pane::Packets => {
                self.side.packets.sel = i;
            },
            Pane::ApiLogs => {
                self.side.api.sel = i;
            },
            Pane::Network => {
                self.side.web.sel = i;
            },
            Pane::Vars => {
                self.side.vars.sel = i;
            },
            _ => {},
        }
    }

    /// What the cursor of the pane, put on a row, changes: the detail is that of the row, from
    /// its beginning.
    pub open spec fn stepped_v(self, i: usize, post: App) -> bool {
        let at = self.with_cursor(i);
        let top = App { ui: (Ui { right_scroll: 0, ..at.ui }), ..at };
        match self.ui.focus {
            Pane::Sessions => at.box_moved_v(post),
            Pane::Flows => post == (App { todo: post.todo, ..top }) && post.plan() == seq![
                StepV::Op(Op::LoadFlowDetail),
            ] + self.plan(),
            Pane::Packets => post == (App { todo: post.todo, ..top }) && post.plan() == seq![
                StepV::Op(Op::LoadPacketDetail),
            ] + self.plan(),
            Pane::Vars => post == (App {
                side: (Side { vars: (Vars { item: 0, ..top.side.vars }), ..top.side }),
                ..top
            }),
            _ => post == top,
        }
    }

    fn step_to(&mut self, i: usize)
        requires
            holds_rows(old(self).ui.focus),
        ensures
            old(self).stepped_v(i, *final(self)),
    {
        self.put_cursor(i);
        match self.ui.focus {
            Pane::Sessions => {
                self.on_box_cursor_moved();
            },
            Pane::Flows => {
                self.ui.right_scroll = 0;
                self.first_op(Op::LoadFlowDetail);
            },
            Pane::Packets => {
                self.ui.right_scroll = 0;
                self.first_op(Op::LoadPacketDetail);
            },
            Pane::Vars => {
                self.side.vars.item = 0;
                self.ui.right_scroll = 0;
            },
            _ => {
                self.ui.right_scroll = 0;
            },
        }
    }

    /// The detail has the keys, and is a text that can be scrolled.
    pub open spec fn in_detail(self) -> bool {
        self.ui.right_focused && App::scrollable(self.ui.focus)
    }

    /// The state with the detail scrolled down or up by `n` lines, not past its end.
    pub open spec fn detail_scrolled(self, n: int, down: bool) -> App {
        let to = scrolled(self.ui.right_scroll, n, down);
        App {
            ui: (Ui {
                right_scroll: if down && to > self.ui.right_scroll_max { self.ui.right_scroll_max } else { to },
                ..self.ui
            }),
            ..self
        }
    }

    fn scroll_detail(&mut self, n: u16, down: bool)
        ensures
            *final(self) == old(self).detail_scrolled(n as int, down),
    {
        let to: u16 = scroll(self.ui.right_scroll, n, down);
        self.ui.right_scroll = if down && to > self.ui.right_scroll_max { self.ui.right_scroll_max } else { to };
    }

    /// What steps over a list change, besides the steps.
    pub open spec fn planned(self, steps: Seq<StepV>, post: App) -> bool {
        &&& post == (App { todo: post.todo, ..self })
        &&& post.plan() == steps + self.plan()
    }

    /// The state with the detail at its beginning.
    pub open spec fn at_top(self) -> App {
        App { ui: (Ui { right_scroll: 0, ..self.ui }), ..self }
    }

    /// The cursor of a list is not at its end.
    pub open spec fn can_advance(self, v: FilterView, down: bool) -> bool {
        let g = self.win(v).start + self.win(v).sel;
        if down { g + 1 < self.win(v).total } else { g > 0 }
    }

    /// What moving the cursor of the pane by one row changes.
    pub open spec fn move_v(self, down: bool, post: App) -> bool {
        if self.ui.right_focused && self.ui.focus == Pane::Vars {
            self.var_item_move_v(if down { 1 } else { -1 }, post)
        } else if self.in_detail() {
            post == self.detail_scrolled(1, down)
        } else {
            match self.ui.focus {
                Pane::Changes => if self.can_advance(FilterView::Changes, down) {
                    self.planned(
                        seq![StepV::Op(Op::Advance(FilterView::Changes, down)), StepV::Op(Op::LoadHunks)],
                        post,
                    )
                } else {
                    post == self
                },
                Pane::Hunks => {
                    let n = self.hunk_list().len() as int;
                    let i = self.diff.sel_hunk as int;
                    if n > 1 && (if down { i + 1 < n } else { i > 0 }) {
                        post == (App {
                            diff: (Diff { sel_hunk: (if down { i + 1 } else { i - 1 }) as usize, ..self.diff }),
                            ..self
                        })
                    } else {
                        post == (App {
                            diff: (Diff { hunk_scroll: scrolled(self.diff.hunk_scroll, 1, down), ..self.diff }),
                            ..self
                        })
                    }
                },
                Pane::Help => post == (App {
                    ui: (Ui { out_scroll: scrolled(self.ui.out_scroll, 1, down), ..self.ui }),
                    ..self
                }),
                Pane::Pty => post == self,
                p => match list_of(p) {
                    Some(v) => self.at_top().planned(seq![StepV::Op(Op::Advance(v, down))], post),
                    None => {
                        let i = self.row_cursor();
                        let free = p == Pane::Sessions || p == Pane::Flows || p == Pane::Packets;
                        if down {
                            if i + 1 < self.row_count() { self.stepped_v((i + 1) as usize, post) } else { post == self }
                        } else if i > 0 {
                            self.stepped_v((i - 1) as usize, post)
                        } else if free {
                            post == self
                        } else {
                            self.stepped_v(0, post)
                        }
                    },
                },
            }
        }
    }

    fn advance_one(&mut self, v: FilterView, down: bool)
        ensures
            old(self).at_top().planned(seq![StepV::Op(Op::Advance(v, down))], *final(self)),
    {
        self.ui.right_scroll = 0;
        self.first_op(Op::Advance(v, down));
    }

    fn not_at_end(&self, v: FilterView, down: bool) -> (r: bool)
        ensures
            r == self.can_advance(v, down),
    {
        let g: u128 = self.window(v).start as u128 + self.window(v).sel as u128;
        if down {
            g + 1 < self.window(v).total as u128
        } else {
            g > 0
        }
    }

    fn move_by_one(&mut self, down: bool)
        ensures
            old(self).move_v(down, *final(self)),
    {
        let ghost orig = *self;
        if self.ui.right_focused && self.ui.focus == Pane::Vars {
            self.var_item_move(if down { 1 } else { -1 });
            return;
        }
        if self.ui.right_focused && self.right_pane_scrollable() {
            self.scroll_detail(1, down);
            return;
        }
        match self.ui.focus {
            Pane::Changes => {
                if self.not_at_end(FilterView::Changes, down) {
                    self.first_op(Op::LoadHunks);
                    self.first_op(Op::Advance(FilterView::Changes, down));
                    assert(self.plan() =~= seq![
                        StepV::Op(Op::Advance(FilterView::Changes, down)),
                        StepV::Op(Op::LoadHunks),
                    ] + orig.plan());
                }
            },
            Pane::Hunks => {
                let v: Vec<i64> = self.hunk_indices();
                let n: usize = v.len();
                assert(n == self.hunk_list().len());
                let i: usize = self.diff.sel_hunk;
                if down {
                    if n > 1 && i < n - 1 {
                        self.diff.sel_hunk = i + 1;
                    } else {
                        self.diff.hunk_scroll = scroll(self.diff.hunk_scroll, 1, true);
                    }
                } else if n > 1 && i > 0 {
                    self.diff.sel_hunk = i - 1;
                } else {
                    self.diff.hunk_scroll = scroll(self.diff.hunk_scroll, 1, false);
                }
            },
            Pane::Help => {
                self.ui.out_scroll = scroll(self.ui.out_scroll, 1, down);
            },
            Pane::Pty => {},
            p => {
                match list_of_pane(p) {
                    Some(v) => {
                        self.advance_one(v, down);
                    },
                    None => {
                        let i: usize = self.cursor_here();
                        let n: usize = self.rows_here();
                        if down {
                            if n > 0 && i < n - 1 {
                                self.step_to(i + 1);
                            }
                        } else if i > 0 {
                            self.step_to(i - 1);
                        } else if p != Pane::Sessions && p != Pane::Flows && p != Pane::Packets {
                            self.step_to(0);
                        }
                    },
                }
            },
        }
    }

    pub fn move_down(&mut self)
        ensures
            old(self).move_v(true, *final(self)),
    {
        self.move_by_one(true);
    }

    pub fn move_up(&mut self)
        ensures
            old(self).move_v(false, *final(self)),
    {
        self.move_by_one(false);
    }

    /// The row that is a page on, or the last in that direction.
    pub open spec fn page_target(self, down: bool) -> int {
        let to = if down { self.row_cursor() + PAGE_SIZE } else { self.row_cursor() - PAGE_SIZE };
        if to < 0 { 0 } else { smaller(to, self.row_count() - 1) }
    }

    /// The panes where a cursor that stays leaves the detail as it is.
    pub open spec fn keeps_detail(p: Pane) -> bool {
        p == Pane::Sessions || p == Pane::Flows || p == Pane::Packets
    }

    /// What moving the cursor of the pane by a page changes.
    pub open spec fn page_v(self, down: bool, post: App) -> bool {
        if self.in_detail() {
            post == self.detail_scrolled(PAGE_SIZE as int, down)
        } else {
            match self.ui.focus {
                Pane::Changes => if self.lists.changes.total == 0 {
                    post == self
                } else {
                    self.planned(page_steps(FilterView::Changes, down) + seq![StepV::Op(Op::LoadHunks)], post)
                },
                Pane::Hunks => post == (App {
                    diff: (Diff { hunk_scroll: scrolled(self.diff.hunk_scroll, PAGE_SIZE as int, down), ..self.diff }),
                    ..self
                }),
                Pane::Help => post == (App {
                    ui: (Ui { out_scroll: scrolled(self.ui.out_scroll, PAGE_SIZE as int, down), ..self.ui }),
                    ..self
                }),
                Pane::Pty => post == self,
                p => match list_of(p) {
                    Some(v) => self.at_top().planned(page_steps(v, down), post),
                    None => if self.row_count() == 0 {
                        post == self
                    } else {
                        let to = self.page_target(down);
                        if App::keeps_detail(p) && to == self.row_cursor() {
                            post == self
                        } else {
                            self.stepped_v(to as usize, post)
                        }
                    },
                },
            }
        }
    }

    fn first_page(&mut self, v: FilterView, down: bool)
        ensures
            old(self).planned(page_steps(v, down), *final(self)),
    {
        let ghost orig = *self;
        let mut k: usize = 0;
        assert(times(0, StepV::Op(Op::Advance(v, down))) + orig.plan() =~= orig.plan());
        while k < PAGE_SIZE
            invariant
                k <= PAGE_SIZE,
                orig.planned(times(k as nat, StepV::Op(Op::Advance(v, down))), *self),
            decreases PAGE_SIZE - k,
        {
            self.first_op(Op::Advance(v, down));
            k += 1;
            assert(self.plan() =~= times(k as nat, StepV::Op(Op::Advance(v, down))) + orig.plan());
        }
    }

    fn page_move(&mut self, down: bool)
        ensures
            old(self).page_v(down, *final(self)),
    {
        let ghost orig = *self;
        let n16: u16 = PAGE_SIZE as u16;
        if self.ui.right_focused && self.right_pane_scrollable() {
            self.scroll_detail(n16, down);
            return;
        }
        match self.ui.focus {
            Pane::Changes => {
                if self.lists.changes.total == 0 {
                    return;
                }
                self.first_op(Op::LoadHunks);
                let ghost mid = self.plan();
                self.first_page(FilterView::Changes, down);
                assert(self.plan() =~= page_steps(FilterView::Changes, down) + seq![StepV::Op(Op::LoadHunks)]
                    + orig.plan());
            },
            Pane::Hunks => {
                self.diff.hunk_scroll = scroll(self.diff.hunk_scroll, n16, down);
            },
            Pane::Help => {
                self.ui.out_scroll = scroll(self.ui.out_scroll, n16, down);
            },
            Pane::Pty => {},
            p => {
                match list_of_pane(p) {
                    Some(v) => {
                        self.ui.right_scroll = 0;
                        self.first_page(v, down);
                    },
                    None => {
                        let n: usize = self.rows_here();
                        if n == 0 {
                            return;
                        }
                        let i: usize = self.cursor_here();
                        let to: usize = if down {
                            if i >= n - 1 || PAGE_SIZE >= n - 1 - i { n - 1 } else { i + PAGE_SIZE }
                        } else if i <= PAGE_SIZE {
                            0
                        } else if i - PAGE_SIZE <= n - 1 {
                            i - PAGE_SIZE
                        } else {
                            n - 1
                        };
                        assert(to as int == orig.page_target(down));
                        let keeps: bool = p == Pane::Sessions || p == Pane::Flows || p == Pane::Packets;
                        if !(keeps && to == i) {
                            self.step_to(to);
                        }
                    },
                }
            },
        }
    }

    pub fn page_down(&mut self)
        ensures
            old(self).page_v(true, *final(self)),
    {
        self.page_move(true);
    }

    pub fn page_up(&mut self)
        ensures
            old(self).page_v(false, *final(self)),
    {
        self.page_move(false);
    }

    /// The steps that put the cursor of a list on its first or last row.
    pub open spec fn to_end(self, v: FilterView, end: bool) -> Seq<StepV> {
        let total = self.win(v).total;
        let pos = if end { total - 1 } else { 0 };
        if total == 0 {
            Seq::empty()
        } else {
            seq![StepV::Op(Op::Fetch(v, minus(pos, 200) as usize)), StepV::Op(Op::Place(v, pos as usize))]
        }
    }

    /// What moving the cursor of the pane to its first or last row changes.
    pub open spec fn extreme_v(self, end: bool, post: App) -> bool {
        if self.in_detail() {
            post == (App {
                ui: (Ui { right_scroll: if end { self.ui.right_scroll_max } else { 0 }, ..self.ui }),
                ..self
            })
        } else {
            match self.ui.focus {
                Pane::Changes => self.planned(
                    self.to_end(FilterView::Changes, end) + seq![StepV::Op(Op::LoadHunks)],
                    post,
                ),
                Pane::Processes => self.planned(
                    self.to_end(FilterView::Procs, end) + seq![StepV::Op(Op::OffConnector(FilterView::Procs, !end))],
                    post,
                ),
                Pane::Hunks => {
                    let n = self.hunk_list().len() as int;
                    post == (App {
                        diff: if end {
                            if n > 1 { Diff { sel_hunk: (n - 1) as usize, ..self.diff } } else { self.diff }
                        } else {
                            Diff { sel_hunk: 0, hunk_scroll: 0, ..self.diff }
                        },
                        ..self
                    })
                },
                Pane::Help => post == (App {
                    ui: (Ui { out_scroll: if end { self.ui.out_scroll } else { 0 }, ..self.ui }),
                    ..self
                }),
                Pane::Pty => post == self,
                p => match list_of(p) {
                    Some(v) => self.at_top().planned(self.to_end(v, end), post),
                    None => {
                        let to = if end { self.row_count() - 1 } else { 0 };
                        if self.row_count() == 0 {
                            post == self
                        } else if App::keeps_detail(p) {
                            if to == self.row_cursor() { post == self } else { self.stepped_v(to as usize, post) }
                        } else {
                            post == self.with_cursor(to as usize)
                        }
                    },
                },
            }
        }
    }

    fn first_to_end(&mut self, v: FilterView, end: bool)
        ensures
            old(self).planned(old(self).to_end(v, end), *final(self)),
    {
        let ghost orig = *self;
        let total: usize = self.window(v).total;
        if total > 0 {
            self.goto_view_pos(v, if end { total - 1 } else { 0 });
        }
        assert(self.plan() =~= orig.to_end(v, end) + orig.plan());
    }

    fn move_extreme(&mut self, end: bool)
        ensures
            old(self).extreme_v(end, *final(self)),
    {
        let ghost orig = *self;
        if self.ui.right_focused && self.right_pane_scrollable() {
            self.ui.right_scroll = if end { self.ui.right_scroll_max } else { 0 };
            return;
        }
        match self.ui.focus {
            Pane::Changes => {
                self.first_op(Op::LoadHunks);
                self.first_to_end(FilterView::Changes, end);
                assert(self.plan() =~= orig.to_end(FilterView::Changes, end) + seq![StepV::Op(Op::LoadHunks)]
                    + orig.plan());
            },
            Pane::Processes => {
                self.first_op(Op::OffConnector(FilterView::Procs, !end));
                self.first_to_end(FilterView::Procs, end);
                assert(self.plan() =~= orig.to_end(FilterView::Procs, end) + seq![
                    StepV::Op(Op::OffConnector(FilterView::Procs, !end)),
                ] + orig.plan());
            },
            Pane::Hunks => {
                if end {
                    let v: Vec<i64> = self.hunk_indices();
                    let n: usize = v.len();
                    assert(n == self.hunk_list().len());
                    if n > 1 {
                        self.diff.sel_hunk = n - 1;
                    }
                } else {
                    self.diff.sel_hunk = 0;
                    self.diff.hunk_scroll = 0;
                }
            },
            Pane::Help => {
                if !end {
                    self.ui.out_scroll = 0;
                }
            },
            Pane::Pty => {},
            p => {
                match list_of_pane(p) {
                    Some(v) => {
                        self.ui.right_scroll = 0;
                        self.first_to_end(v, end);
                    },
                    None => {
                        let n: usize = self.rows_here();
                        if n == 0 {
                            return;
                        }
                        let to: usize = if end { n - 1 } else { 0 };
                        if p == Pane::Sessions || p == Pane::Flows || p == Pane::Packets {
                            if to != self.cursor_here() {
                                self.step_to(to);
                            }
                        } else {
                            self.put_cursor(to);
                        }
                    },
                }
            },
        }
    }

    pub fn move_home(&mut self)
        ensures
            old(self).extreme_v(false, *final(self)),
    {
        self.move_extreme(false);
    }

    pub fn move_end(&mut self)
        ensures
            old(self).extreme_v(true, *final(self)),
    {
        self.move_extreme(true);
    }
}

proof fn lemma_stepped(a: App, i: usize, b: App)
    requires
        holds_rows(a.ui.focus),
        a.stepped_v(i, b),
    ensures
        b.row_cursor() == i,
        b.row_count() == a.row_count(),
        b.ui.focus == a.ui.focus,
        b.ui.right_focused == a.ui.right_focused,
{
}

proof fn lemma_rows_fit(a: App)
    ensures
        a.row_count() <= usize::MAX,
{
    assert(a.boxes.sessions@.len() == a.boxes.sessions.len());
    assert(a.side.rules@.len() == a.side.rules.len());
    assert(a.side.flows.rows@.len() == a.side.flows.rows.len());
    assert(a.side.packets.rows@.len() == a.side.packets.rows.len());
    assert(a.side.api.rows@.len() == a.side.api.rows.len());
    assert(a.side.web.rows@.len() == a.side.web.rows.len());
    assert(a.side.vars.rows@.len() == a.side.vars.rows.len());
}

proof fn lemma_move_stays(a: App, b: App, down: bool)
    requires
        holds_rows(a.ui.focus),
        a.row_cursor() < a.row_count(),
        a.move_v(down, b),
    ensures
        b.row_cursor() < b.row_count(),
        b.row_count() == a.row_count(),
{
    lemma_rows_fit(a);
    let i = a.row_cursor();
    if !a.in_detail() && b != a {
        if down {
            lemma_stepped(a, (i + 1) as usize, b);
        } else if i > 0 {
            lemma_stepped(a, (i - 1) as usize, b);
        } else {
            lemma_stepped(a, 0, b);
        }
    }
}

proof fn lemma_page_stays(a: App, b: App, down: bool)
    requires
        holds_rows(a.ui.focus),
        a.row_cursor() < a.row_count(),
        a.page_v(down, b),
    ensures
        b.row_cursor() < b.row_count(),
        b.row_count() == a.row_count(),
{
    lemma_rows_fit(a);
    if !a.in_detail() && b != a {
        lemma_stepped(a, a.page_target(down) as usize, b);
    }
}

proof fn lemma_extreme_stays(a: App, b: App, end: bool)
    requires
        holds_rows(a.ui.focus),
        a.row_cursor() < a.row_count(),
        a.extreme_v(end, b),
    ensures
        b.row_cursor() < b.row_count(),
        b.row_count() == a.row_count(),
{
    lemma_rows_fit(a);
    if !a.in_detail() && b != a && App::keeps_detail(a.ui.focus) {
        lemma_stepped(a, (if end { a.row_count() - 1 } else { 0 }) as usize, b);
    }
}

/// A cursor among the rows of a pane stays among them, whichever way it is moved.
pub proof fn law_cursor_stays_among_the_rows(a: App, b: App, down: bool)
    requires
        holds_rows(a.ui.focus),
        a.row_cursor() < a.row_count(),
        a.move_v(down, b) || a.page_v(down, b) || a.extreme_v(down, b),
    ensures
        b.row_cursor() < b.row_count(),
        b.row_count() == a.row_count(),
{
    if a.move_v(down, b) {
        lemma_move_stays(a, b, down);
    } else if a.page_v(down, b) {
        lemma_page_stays(a, b, down);
    } else {
        lemma_extreme_stays(a, b, down);
    }
}

/// One row down and one row up is where the cursor was.
pub proof fn law_up_undoes_down(a: App, b: App, c: App)
    requires
        holds_rows(a.ui.focus),
        !a.ui.right_focused,
        a.row_cursor() + 1 < a.row_count(),
        a.move_v(true, b),
        b.move_v(false, c),
    ensures
        c.row_cursor() == a.row_cursor(),
{
    lemma_rows_fit(a);
    let i = a.row_cursor();
    lemma_stepped(a, (i + 1) as usize, b);
    lemma_stepped(b, i as usize, c);
}

/// The detail of a row stops at its end: it is not moved beyond it.
pub proof fn law_detail_stops_at_its_end(a: App, b: App, down: bool)
    requires
        a.in_detail(),
        a.ui.focus != Pane::Vars,
        a.ui.right_scroll <= a.ui.right_scroll_max,
        a.move_v(down, b) || a.page_v(down, b) || a.extreme_v(down, b),
    ensures
        b.ui.right_scroll <= b.ui.right_scroll_max,
        b.ui.right_scroll_max == a.ui.right_scroll_max,
{
}

} // verus!
