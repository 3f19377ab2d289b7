//! The plan is worked off: a step that concerns the state alone is done, any other is handed
//! out, and the answer to a call goes to what it was asked for.

use vstd::prelude::*;

use crate::app::{
    App, Boxes, Diff, Env, Filters, FlowList, Jobs, Launch, Lists, Marks, NetMode, Op, RowList, Shown, Side, Step, Tally,
    Terms, Then, Ui, Vars,
};
#[allow(unused_imports)]
use crate::app::StepV;
use crate::json::Json;
#[allow(unused_imports)]
use crate::json::JV;
#[allow(unused_imports)]
use crate::lists::rep_v;
use crate::text::own;
use crate::types::{ConfirmAction, FilterView, Pane, StructState, ViewFilter, Win};
#[allow(unused_imports)]
use crate::types::FilterV;

verus! {

/// The message that a fresh client shows.
pub open spec fn ready_text() -> Seq<char> {
    "ready · j/k move · b/c/p/o boxes/changes/procs/outputs · e rules · ? help · Enter open · a apply · x discard · K kill · D delete · r rename · / search · q quit"@
}

/// A list with nothing in it.
pub open spec fn blank_win(w: Win) -> bool {
    &&& w.rows@.len() == 0
    &&& w.view is None
    &&& w.sid is None
    &&& w.total == 0
    &&& w.start == 0
    &&& w.sel == 0
}

/// Frames of which none is there.
pub open spec fn blank_flows(f: FlowList) -> bool {
    &&& f.rows@.len() == 0
    &&& f.sel == 0
    &&& f.detail@.len() == 0
    &&& f.frame == 0
}

/// Rows that were not loaded.
pub open spec fn blank_rows(l: RowList) -> bool {
    &&& l.rows@.len() == 0
    &&& l.sel == 0
    &&& l.sid is None
}

/// No structural diff.
pub open spec fn blank_struct(s: StructState) -> bool {
    &&& s.generation == 0
    &&& s.job is None
    &&& s.quick_lines@.len() == 0
    &&& s.full_lines is None
    &&& s.spin == 0
    &&& !s.pending
    &&& s.hex_lines@.len() == 0
    &&& s.header@.len() == 0
}

fn blank_list() -> (r: FlowList)
    ensures
        blank_flows(r),
{
    proof {
        reveal_strlit("");
    }
    FlowList { rows: Vec::new(), sel: 0, detail: own(""), frame: 0 }
}

fn no_rows() -> (r: RowList)
    ensures
        blank_rows(r),
{
    RowList { rows: Vec::new(), sel: 0, sid: None }
}

impl App {
    /// Nothing has been asked of the engine yet, and nothing is on the screen but the status
    /// line.
    pub open spec fn is_blank(self) -> bool {
        &&& self.boxes.sessions@.len() == 0
        &&& self.boxes.sel == 0
        &&& self.boxes.summary@ == JV::Null
        &&& self.boxes.images@.len() == 0
        &&& self.boxes.marks.keys@.len() == 0
        &&& self.boxes.marks.scope is None
        &&& self.boxes.marks.anchor is None
        &&& forall|v: FilterView| blank_win(#[trigger] self.win(v))
        &&& forall|v: FilterView| (#[trigger] self.filter(v))@ == FilterV::none()
        &&& self.shown.output_segs@.len() == 0
        &&& self.shown.pipelines_flat@.len() == 0
        &&& self.shown.edges_flat@.len() == 0
        &&& self.shown.pipe_tree
        &&& !self.shown.pipe_running_only
        &&& self.shown.proc_running_only
        &&& self.shown.edges_running_only
        &&& !self.shown.err_only
        &&& self.diff.hunks@ == JV::Null
        &&& self.diff.hunk_scroll == 0
        &&& self.diff.sel_hunk == 0
        &&& self.diff.cd_info is None
        &&& self.diff.decor@.len() == 0
        &&& blank_struct(self.diff.structd)
        &&& !self.diff.waiting
        &&& self.diff.pin is None
        &&& blank_rows(self.side.api)
        &&& blank_rows(self.side.web)
        &&& self.side.api_note@.len() == 0
        &&& self.side.rules@.len() == 0
        &&& self.side.sel_rule == 0
        &&& self.side.vars.query.0@.len() == 0
        &&& self.side.vars.query.1@.len() == 0
        &&& !self.side.vars.any
        &&& self.side.vars.rows@.len() == 0
        &&& self.side.vars.sel == 0
        &&& self.side.vars.item == 0
        &&& blank_flows(self.side.flows)
        &&& blank_flows(self.side.packets)
        &&& self.side.packets_stream == -1
        &&& self.side.packets_sid is None
        &&& self.ui.renaming is None
        &&& self.ui.modal is None
        &&& !self.ui.should_quit
        &&& !self.ui.right_focused
        &&& self.ui.right_scroll == 0
        &&& self.ui.right_scroll_max == 0
        &&& self.ui.out_scroll == 0
        &&& self.ui.out_follow_scroll == 0
        &&& !self.ui.menu_nav
        &&& self.ui.menu_sel == 0
        &&& self.ui.nav_history@.len() == 0
        &&& self.ui.back is None
        &&& self.terms.ptys@.len() == 0
        &&& self.terms.sel == 0
        &&& !self.terms.in_right
        &&& self.terms.esc_at is None
        &&& self.jobs.launch.net == NetMode::Tap
        &&& !self.jobs.launch.env
        &&& !self.jobs.launch.bumped
        &&& self.jobs.load is None
        &&& !self.jobs.models
        &&& !self.jobs.model_picker_offered
        &&& !self.jobs.probe
        &&& self.jobs.prompt is None
        &&& self.jobs.nav_ids@.len() == 0
    }

    /// A client that has asked for nothing, with a message.
    pub fn blank(env: Env, tap_ok: bool, focus: Pane, status: &str) -> (r: App)
        ensures
            r.is_blank(),
            r.env == env,
            r.ui.focus == focus,
            r.ui.status@ == status@,
            r.jobs.launch.tap_ok == tap_ok,
            r.plan() == Seq::<StepV>::empty(),
    {
        let r: App = App {
            env,
            boxes: Boxes {
                sessions: Vec::new(),
                sel: 0,
                summary: Json::Null,
                images: Vec::new(),
                marks: Marks { keys: Vec::new(), scope: None, anchor: None },
            },
            lists: Lists {
                changes: Win::new(),
                processes: Win::new(),
                outputs: Win::new(),
                pipelines: Win::new(),
                edges: Win::new(),
            },
            filters: Filters {
                changes: ViewFilter::new(),
                procs: ViewFilter::new(),
                outputs: ViewFilter::new(),
                pipelines: ViewFilter::new(),
                edges: ViewFilter::new(),
            },
            shown: Shown {
                output_segs: Vec::new(),
                pipelines_flat: Vec::new(),
                edges_flat: Vec::new(),
                pipe_tree: true,
                pipe_running_only: false,
                proc_running_only: true,
                edges_running_only: true,
                err_only: false,
            },
            diff: Diff {
                hunks: Json::Null,
                hunk_scroll: 0,
                sel_hunk: 0,
                cd_info: None,
                decor: Vec::new(),
                structd: StructState::new(),
                waiting: false,
                pin: None,
                head: (own(""), false),
            },
            side: Side {
                api: no_rows(),
                web: no_rows(),
                api_note: Vec::new(),
                rules: Vec::new(),
                sel_rule: 0,
                vars: Vars { query: (own(""), own("")), any: false, rows: Vec::new(), sel: 0, item: 0 },
                flows: blank_list(),
                packets: blank_list(),
                packets_stream: -1,
                packets_sid: None,
            },
            ui: Ui {
                focus,
                status: own(status),
                renaming: None,
                modal: None,
                should_quit: false,
                right_focused: false,
                right_scroll: 0,
                right_scroll_max: 0,
                out_scroll: 0,
                out_follow_scroll: 0,
                menu_nav: false,
                menu_sel: 0,
                nav_history: Vec::new(),
                back: None,
            },
            terms: Terms { ptys: Vec::new(), sel: 0, in_right: false, esc_at: None },
            jobs: Jobs {
                launch: Launch { net: NetMode::Tap, env: false, tap_ok, bumped: false },
                load: None,
                models: false,
                model_picker_offered: false,
                probe: false,
                prompt: None,
                tally: Tally { ok: 0, err: 0, why: None },
                nav_ids: Vec::new(),
            },
            todo: Vec::new(),
        };
        proof {
            reveal_strlit("");
            assert(r.plan() =~= Seq::<StepV>::empty());
        }
        r
    }

    /// A client on the boxes, which is to load the boxes, the changes and the rules.
    pub fn new(env: Env, tap_ok: bool) -> (r: App)
        ensures
            r.is_blank(),
            r.env == env,
            r.ui.focus == Pane::Sessions,
            r.ui.status@ == ready_text(),
            r.jobs.launch.tap_ok == tap_ok,
            r.plan() == seq![
                StepV::Op(Op::RefreshSessions),
                StepV::Op(Op::LoadChanges),
                StepV::Op(Op::LoadRules),
            ],
    {
        let mut r: App = App::blank(
            env,
            tap_ok,
            Pane::Sessions,
            "ready · j/k move · b/c/p/o boxes/changes/procs/outputs · e rules · ? help · Enter open · a apply · x discard · K kill · D delete · r rename · / search · q quit",
        );
        let ghost b = r;
        r.first_op(Op::LoadRules);
        r.first_op(Op::LoadChanges);
        r.first_op(Op::RefreshSessions);
        assert(r.plan() =~= seq![
            StepV::Op(Op::RefreshSessions),
            StepV::Op(Op::LoadChanges),
            StepV::Op(Op::LoadRules),
        ]);
        assert forall|v: FilterView| blank_win(#[trigger] r.win(v)) by {
            assert(blank_win(b.win(v)));
        }
        assert forall|v: FilterView| (#[trigger] r.filter(v))@ == FilterV::none() by {
            assert(b.filter(v)@ == FilterV::none());
        }
        r
    }

    /// What a step that is done here changes.
    pub open spec fn op_v(self, op: Op, post: App) -> bool {
        match op {
            Op::RefreshSessions => self.refresh_sessions_v(post),
            Op::LoadChanges => self.load_v(FilterView::Changes, post),
            Op::LoadRules => self.planned(seq![StepV::ReadRules], post),
            Op::LoadHunks => self.load_hunks_v(post),
            Op::LoadFlowDetail => self.load_flow_detail_v(post),
            Op::LoadPacketDetail => self.load_packet_detail_v(post),
            Op::RefreshPrompt => self.planned(
                seq![StepV::Call("prompts.peek"@, Seq::empty(), Then::Prompt)],
                post,
            ),
            Op::RefreshSummary => self.recent_v(post),
            Op::Fetch(v, start) => self.fetch_window_v(v, start, post),
            Op::SeekFirst(v) => self.seek_first_v(v, post),
            Op::SeekLast(v) => self.seek_last_v(v, post),
            Op::Settle(v, g, fwd) => self.settled_v(v, g as int, fwd, post),
            Op::Advance(v, fwd) => self.advance_v(v, fwd, post),
            Op::OffConnector(v, fwd) => self.off_connector_v(v, fwd, post),
            Op::Repin(v, saved, pin) => self.repin_v(v, saved, pin, post),
            Op::RepinPath(saved) => self.repin_path_v(saved, post),
            Op::RepinHunk => self.repin_hunk_v(post),
            Op::Place(v, pos) => self.place_v(v, pos, post),
            Op::ScrollTo(v, id) => self.scroll_view_to_id_v(v, id, post),
            Op::ReopenForHunk => self.reopen_for_hunk_v(post),
            Op::ClearMarks => self.clear_marks_v(post),
            Op::FinishBatch(discard) => self.finish_batch_v(discard, post),
            Op::FinishKill => self.finish_confirm_v(ConfirmAction::Kill, post),
            Op::FinishDissolve => self.finish_confirm_v(ConfirmAction::Dissolve, post),
            Op::OfferModels => self.offer_v(post),
            Op::ApiLogRows => self.api_log_rows_v(post),
            Op::Visit(pane) => self.visit_v(pane, post),
            Op::Translate(domain, v) => self.translate_v(domain, v, post),
            Op::Focus(pane) => post == (App { ui: (Ui { focus: pane, ..self.ui }), ..self }),
            Op::LoadIfNeeded(v) => self.load_list_if_needed_v(v, post),
            Op::LoadApiIfNeeded => self.planned(
                if self.is_loaded(self.side.api) { Seq::empty() } else { App::api_steps() },
                post,
            ),
            Op::LoadWebIfNeeded => self.planned(
                if self.is_loaded(self.side.web) { Seq::empty() } else { self.web_call() },
                post,
            ),
            Op::LoadFlows => self.load_flows_v(post),
            Op::Restore => self.restore_v(post),
            Op::VarCursor(cursor) => self.var_cursor_v(cursor, post),
            Op::EndBack(right_focused, right_scroll) => self.end_back_v(right_focused, right_scroll, post),
        }
    }

    /// Does a step that is done here.
    pub fn run_op(&mut self, op: Op)
        ensures
            old(self).op_v(op, *final(self)),
    {
        match op {
            Op::RefreshSessions => self.refresh_sessions(),
            Op::LoadChanges => self.load_list(FilterView::Changes),
            Op::LoadRules => self.first(Step::ReadRules),
            Op::LoadHunks => self.load_hunks(),
            Op::LoadFlowDetail => self.load_flow_detail(),
            Op::LoadPacketDetail => self.load_packet_detail(),
            Op::RefreshPrompt => self.refresh_prompt(),
            Op::RefreshSummary => self.refresh_recent_changes(),
            Op::Fetch(v, start) => self.fetch_window(v, start),
            Op::SeekFirst(v) => self.seek_first(v),
            Op::SeekLast(v) => self.seek_last(v),
            Op::Settle(v, g, fwd) => self.settle(v, g, fwd),
            Op::Advance(v, fwd) => self.advance(v, fwd),
            Op::OffConnector(v, fwd) => self.off_connector(v, fwd),
            Op::Repin(v, saved, pin) => self.repin(v, saved, pin),
            Op::RepinPath(saved) => self.repin_path(saved),
            Op::RepinHunk => self.repin_hunk(),
            Op::Place(v, pos) => self.place(v, pos),
            Op::ScrollTo(v, id) => self.scroll_view_to_id(v, id),
            Op::ReopenForHunk => self.reopen_for_hunk(),
            Op::ClearMarks => {
                let _ = self.clear_marks();
            },
            Op::FinishBatch(discard) => self.finish_batch(discard),
            Op::FinishKill => self.finish_confirm(ConfirmAction::Kill),
            Op::FinishDissolve => self.finish_confirm(ConfirmAction::Dissolve),
            Op::OfferModels => self.maybe_offer_model_picker(),
            Op::ApiLogRows => self.api_log_rows(),
            Op::Visit(pane) => self.visit(pane),
            Op::Translate(domain, v) => self.translate(domain, v),
            Op::Focus(pane) => {
                self.ui.focus = pane;
            },
            Op::LoadIfNeeded(v) => self.load_list_if_needed(v),
            Op::LoadApiIfNeeded => self.load_api_logs_if_needed(),
            Op::LoadWebIfNeeded => self.load_webcap_if_needed(),
            Op::LoadFlows => self.load_flows(),
            Op::Restore => self.restore(),
            Op::VarCursor(cursor) => self.var_cursor(cursor),
            Op::EndBack(right_focused, right_scroll) => self.end_back(right_focused, right_scroll),
        }
    }
}

/// What became of the next step of the plan.
#[derive(Debug)]
pub enum Turn {
    /// Nothing is planned.
    Idle,
    /// The step was done.
    Done,
    /// The step is to be done outside.
    Outside(Step),
}

impl App {
    /// What working off the next step changes, and what becomes of it.
    pub open spec fn next_v(self, t: Turn, post: App) -> bool {
        if self.plan().len() == 0 {
            t is Idle && post == self
        } else {
            exists|mid: App|
                {
                    &&& #[trigger] mid.plan() == self.plan().skip(1)
                    &&& mid == (App { todo: mid.todo, ..self })
                    &&& match self.plan()[0] {
                        StepV::Op(op) => t is Done && mid.op_v(op, post),
                        StepV::Say(s) => t is Done && mid.says(post, s),
                        s => t is Outside && t->0@ == s && post == mid,
                    }
                }
        }
    }

    /// Works off the next step of the plan.
    pub fn next(&mut self) -> (r: Turn)
        ensures
            old(self).next_v(r, *final(self)),
    {
        let ghost orig = *self;
        if self.todo.len() == 0 {
            return Turn::Idle;
        }
        assert(self.plan().len() == self.todo@.len());
        match self.todo.pop() {
            None => Turn::Idle,
            Some(s) => {
                let ghost mid = *self;
                proof {
                    assert(orig.plan()[0] == s@);
                    assert(mid.plan() =~= orig.plan().skip(1));
                }
                match s {
                    Step::Op(op) => {
                        self.run_op(op);
                        assert(mid.op_v(op, *self));
                        Turn::Done
                    },
                    Step::Say(t) => {
                        self.say(t.as_str());
                        assert(mid.says(*self, t@));
                        Turn::Done
                    },
                    other => Turn::Outside(other),
                }
            },
        }
    }

    /// What the answer to a call changes.
    pub open spec fn answer_v(self, then: Then, r: Result<Json, String>, post: App) -> bool {
        match then {
            Then::Ignore => post == self,
            Then::Sessions => self.sessions_v(rep_v(r), post),
            Then::Images => self.images_reply_v(r, post),
            Then::Opened(v, sid) => self.opened_v(v, sid, rep_v(r), post),
            Then::Reopened(v, start, sel, pin) => self.reopened_v(v, start, sel, pin, rep_v(r), post),
            Then::ReopenedForHunk => self.reopened_for_hunk_v(r, post),
            Then::Window(FilterView::Changes, start) => self.changes_window_v(start, rep_v(r), post),
            Then::Window(FilterView::Procs, start) => self.procs_window_v(start, rep_v(r), post),
            Then::Window(FilterView::Outputs, start) => self.outputs_window_v(start, rep_v(r), post),
            Then::Window(FilterView::Pipelines, start) => self.pipelines_window_v(start, rep_v(r), post),
            Then::Window(FilterView::BuildEdges, start) => self.edges_window_v(start, rep_v(r), post),
            Then::Decor => self.decor_reply_v(rep_v(r), post),
            Then::Filtered(v) => self.filtered_v(v, rep_v(r), post),
            Then::Summary => self.summary_v(r, post),
            Then::Output(oid, stream) => self.output_detail_v(oid, stream, r, post),
            Then::Vars => self.vars_reply_v(r, post),
            Then::Flows => self.flows_reply_v(rep_v(r), post),
            Then::FlowDetail => self.flow_detail_reply_v(r, post),
            Then::Packets(want) => self.packets_reply_v(want, rep_v(r), post),
            Then::PacketDetail => self.packet_detail_reply_v(r, post),
            Then::Prompt => self.prompt_reply_v(r, post),
            Then::ApiStatus => self.api_status_v(rep_v(r), post),
            Then::ApiLog => self.api_log_reply_v(r, post),
            Then::Webcap => self.webcap_reply_v(r, post),
            Then::Hunks => self.hunks_reply_v(rep_v(r), post),
            Then::HeaderKind => self.header_kind_v(r, post),
            Then::HeaderMode(full) => self.header_mode_v(full, r, post),
            Then::StructQuick => self.struct_quick_v(rep_v(r), post),
            Then::Hunk(ix, discard) => self.hunk_reply_v(ix, discard, rep_v(r), post),
            Then::Review(discard) => self.review_reply_v(discard, r, post),
            Then::ReviewAll(discard) => self.review_all_reply_v(discard, r, post),
            Then::ReviewMarked(discard, n) => self.review_marked_reply_v(discard, n, r, post),
            Then::ReviewBox => self.tally_reply_v(r, post),
            Then::BoxOp => self.tally_reply_v(r, post),
            Then::RulesReloaded => self.rules_reloaded_v(r, post),
            Then::Find(v) => self.found_v(v, r, post),
            Then::Writer => self.writer_reply_v(r, post),
            Then::OutputPipeline => self.output_pipeline_reply_v(r, post),
            Then::Translated(v) => self.translated_v(v, r, post),
        }
    }

    /// Takes in the answer to a call.
    pub fn answer(&mut self, then: Then, r: Result<Json, String>)
        ensures
            old(self).answer_v(then, r, *final(self)),
    {
        match then {
            Then::Ignore => {},
            Then::Sessions => self.sessions_reply(r),
            Then::Images => self.images_reply(r),
            Then::Opened(v, sid) => self.opened(v, sid, r),
            Then::Reopened(v, start, sel, pin) => self.reopened(v, start, sel, pin, r),
            Then::ReopenedForHunk => self.reopened_for_hunk(r),
            Then::Window(FilterView::Changes, start) => self.changes_window(start, r),
            Then::Window(FilterView::Procs, start) => self.procs_window(start, r),
            Then::Window(FilterView::Outputs, start) => self.outputs_window(start, r),
            Then::Window(FilterView::Pipelines, start) => self.pipelines_window(start, r),
            Then::Window(FilterView::BuildEdges, start) => self.edges_window(start, r),
            Then::Decor => self.decor_reply(r),
            Then::Filtered(v) => self.filtered(v, r),
            Then::Summary => self.summary(r),
            Then::Output(oid, stream) => self.output_detail(oid, stream, r),
            Then::Vars => self.vars_reply(r),
            Then::Flows => self.flows_reply(r),
            Then::FlowDetail => self.flow_detail_reply(r),
            Then::Packets(want) => self.packets_reply(want, r),
            Then::PacketDetail => self.packet_detail_reply(r),
            Then::Prompt => self.prompt_reply(r),
            Then::ApiStatus => self.api_status_reply(r),
            Then::ApiLog => self.api_log_reply(r),
            Then::Webcap => self.webcap_reply(r),
            Then::Hunks => self.hunks_reply(r),
            Then::HeaderKind => self.header_kind(r),
            Then::HeaderMode(full) => self.header_mode(full, r),
            Then::StructQuick => self.struct_quick(r),
            Then::Hunk(ix, discard) => self.hunk_reply(ix, discard, r),
            Then::Review(discard) => self.review_reply(discard, r),
            Then::ReviewAll(discard) => self.review_all_reply(discard, r),
            Then::ReviewMarked(discard, n) => self.review_marked_reply(discard, n, r),
            Then::ReviewBox => self.tally_reply(r),
            Then::BoxOp => self.tally_reply(r),
            Then::RulesReloaded => self.rules_reloaded(r),
            Then::Find(v) => self.found(v, r),
            Then::Writer => self.writer_reply(r),
            Then::OutputPipeline => self.output_pipeline_reply(r),
            Then::Translated(v) => self.translated(v, r),
        }
    }

    /// What time that goes by changes: the signs of what is under way turn, and the engine is
    /// asked whether it waits for an answer.
    pub open spec fn tick_v(self, post: App) -> bool {
        exists|a: App, b: App|
            {
                &&& #[trigger] self.load_tick_v(a)
                &&& b == (App {
                    diff: (Diff {
                        structd: (StructState {
                            spin: if a.diff.structd.pending && a.diff.structd.full_lines is None {
                                App::turn(a.diff.structd.spin)
                            } else {
                                a.diff.structd.spin
                            },
                            ..a.diff.structd
                        }),
                        ..a.diff
                    }),
                    ..a
                })
                &&& #[trigger] b.planned(seq![StepV::Call("prompts.peek"@, Seq::empty(), Then::Prompt)], post)
            }
    }

    /// Time goes by.
    pub fn tick(&mut self)
        ensures
            old(self).tick_v(*final(self)),
    {
        self.load_tick();
        let ghost a = *self;
        if self.diff.structd.pending && self.diff.structd.full_lines.is_none() {
            let n: usize = self.diff.structd.spin;
            self.diff.structd.spin = if n == usize::MAX { 0 } else { n + 1 };
        }
        let ghost b = *self;
        self.refresh_prompt();
        assert(old(self).load_tick_v(a));
        assert(b.planned(seq![StepV::Call("prompts.peek"@, Seq::empty(), Then::Prompt)], *self));
    }
}

/// A call as the engine reads it.
pub open spec fn request_v(verb: Seq<char>, args: Seq<JV>) -> JV {
    JV::Obj(seq![("type"@, JV::Str("ui"@)), ("verb"@, JV::Str(verb)), ("args"@, JV::Arr(args))])
}

/// Writes a call as the engine reads it.
pub fn request(verb: &str, args: Vec<Json>) -> (r: Json)
    ensures
        r@ == request_v(verb@, crate::json::jvs(args@)),
{
    let r: Json = Json::obj().with("type", Json::text("ui")).with("verb", Json::text(verb)).with(
        "args",
        crate::types::arr(args),
    );
    assert(r@->Obj_0 =~= request_v(verb@, crate::json::jvs(args@))->Obj_0);
    r
}

/// A new name for a box, as the engine reads it.
pub open spec fn rename_v(sid: Seq<char>, name: Seq<char>) -> JV {
    JV::Obj(seq![("type"@, JV::Str("rename"@)), ("sid"@, JV::Str(sid)), ("name"@, JV::Str(name))])
}

/// Writes a new name for a box as the engine reads it.
pub fn rename_request(sid: &str, name: &str) -> (r: Json)
    ensures
        r@ == rename_v(sid@, name@),
{
    let r: Json = Json::obj().with("type", Json::text("rename")).with("sid", Json::text(sid)).with("name", Json::text(name));
    assert(r@->Obj_0 =~= rename_v(sid@, name@)->Obj_0);
    r
}

/// A step that is done outside leaves the state as it is, but for the plan.
pub proof fn law_outside_steps_change_nothing(a: App, s: Step, b: App)
    requires
        a.next_v(Turn::Outside(s), b),
    ensures
        b == (App { todo: b.todo, ..a }),
        a.plan() == seq![s@] + b.plan(),
{
    let mid = choose|mid: App|
        {
            &&& #[trigger] mid.plan() == a.plan().skip(1)
            &&& mid == (App { todo: mid.todo, ..a })
            &&& match a.plan()[0] {
                StepV::Op(op) => false,
                StepV::Say(t) => false,
                t => s@ == t && b == mid,
            }
        };
    assert(a.plan() =~= seq![s@] + b.plan());
}

} // verus!
