//! The state of the client, and the plan: what is still to be done, in order, before the next
//! key is looked at. A part of the plan is done here; the rest (calls to the engine, files,
//! terminals) is handed out, and what came of it is handed back.

use vstd::prelude::*;

use crate::json::Json;
#[allow(unused_imports)]
use crate::json::{jvs, opt_chars, JV};
use crate::launch::{How, Placement};
#[allow(unused_imports)]
use crate::launch::{HowV, PlacementV};
use crate::text::{chars, own};
#[allow(unused_imports)]
use crate::text::strs;
use crate::types::{
    FilterView, LoadJob, Modal, NavSnapshot, Pane, PtyInfo, StructState, ViewFilter, Win,
};

verus! {

/// How many rows of a list are held at once.
pub const WINDOW_SIZE: usize = 400;

/// How many rows a page is.
pub const PAGE_SIZE: usize = 20;

/// How many entries the go-back history holds.
pub const NAV_HISTORY_CAP: usize = 32;

/// How many characters of a transcript are shown.
pub const OUTPUT_WINDOW_CAP: usize = 8000;

/// A network mode: packets of its own, those of the host, or none.
#[derive(Clone, Copy, Debug, PartialEq, Eq, Structural)]
pub enum NetMode {
    Tap,
    Host,
    Off,
}

/// The name of a network mode.
pub open spec fn net_name(m: NetMode) -> Seq<char> {
    match m {
        NetMode::Tap => "tap"@,
        NetMode::Host => "host"@,
        NetMode::Off => "off"@,
    }
}

/// The network mode behind another.
pub open spec fn net_after(m: NetMode) -> NetMode {
    match m {
        NetMode::Tap => NetMode::Host,
        NetMode::Host => NetMode::Off,
        NetMode::Off => NetMode::Tap,
    }
}

impl NetMode {
    pub fn name(self) -> (r: &'static str)
        ensures
            r@ == net_name(self),
    {
        match self {
            NetMode::Tap => "tap",
            NetMode::Host => "host",
            NetMode::Off => "off",
        }
    }

    pub fn next(self) -> (r: NetMode)
        ensures
            r == net_after(self),
    {
        match self {
            NetMode::Tap => NetMode::Host,
            NetMode::Host => NetMode::Off,
            NetMode::Off => NetMode::Tap,
        }
    }
}

/// Three changes of the network mode lead back to the first.
pub proof fn law_network_modes_cycle(m: NetMode)
    ensures
        net_after(net_after(net_after(m))) == m,
        net_after(m) != m,
        net_after(net_after(m)) != m,
{
}

/// The filters of the five lists.
#[derive(Debug)]
pub struct Filters {
    pub changes: ViewFilter,
    pub procs: ViewFilter,
    pub outputs: ViewFilter,
    pub pipelines: ViewFilter,
    pub edges: ViewFilter,
}

/// The rows that are selected, by key, each at most once.
#[derive(Debug)]
pub struct Marks {
    pub keys: Vec<String>,
    /// The pane that the selection was made on.
    pub scope: Option<Pane>,
    pub anchor: Option<usize>,
}

/// Rows that are loaded as a whole, for one box.
#[derive(Debug)]
pub struct RowList {
    pub rows: Vec<Json>,
    pub sel: usize,
    pub sid: Option<String>,
}

/// Captured frames, and the decoded text of the one that the cursor is on.
#[derive(Debug)]
pub struct FlowList {
    pub rows: Vec<Json>,
    pub sel: usize,
    pub detail: String,
    pub frame: u64,
}

/// The query for variables, and what was found.
#[derive(Debug)]
pub struct Vars {
    pub query: (String, String),
    /// One term is looked for in names and in values.
    pub any: bool,
    pub rows: Vec<Json>,
    pub sel: usize,
    /// The item of the detail that the cursor is on.
    pub item: usize,
}

/// The choices of the launcher.
#[derive(Clone, Copy, Debug, PartialEq, Eq)]
pub struct Launch {
    pub net: NetMode,
    pub env: bool,
    /// The network mode `tap` works here.
    pub tap_ok: bool,
    /// The mode has been changed once because `tap` does not work.
    pub bumped: bool,
}

/// The outcome of a call that is made once for each of several boxes.
#[derive(Debug)]
pub struct Tally {
    pub ok: usize,
    pub err: usize,
    pub why: Option<String>,
}

/// What a number at a cursor is the number of.
#[derive(Clone, Copy, Debug, PartialEq, Eq, Structural)]
pub enum Domain {
    Process,
    Pipeline,
    Edge,
}

/// What the answer to a call is for.
#[derive(Clone, Copy, Debug, PartialEq, Eq, Structural)]
pub enum Then {
    /// Nothing.
    Ignore,
    Sessions,
    Images,
    /// A list was opened anew, for that box.
    Opened(FilterView, i64),
    /// A list was opened again; the cursor stays on its row: the window began there, the cursor
    /// was there, on the row of that number.
    Reopened(FilterView, usize, usize, Option<i64>),
    /// The list of changes was opened again after a hunk was taken out of it.
    ReopenedForHunk,
    /// A window of a list, asked for from that row on.
    Window(FilterView, usize),
    Decor,
    Filtered(FilterView),
    Summary,
    /// The bytes of an output: its number and its stream.
    Output(i64, i64),
    Vars,
    Flows,
    FlowDetail,
    /// The packets of a stream; the cursor goes to that frame.
    Packets(u64),
    PacketDetail,
    Prompt,
    ApiStatus,
    ApiLog,
    Webcap,
    Hunks,
    /// The kind of the change on which the cursor is, for the header.
    HeaderKind,
    /// Its mode, for the header; `true` for the header of the structural diff.
    HeaderMode(bool),
    StructQuick,
    /// A hunk was applied, or discarded.
    Hunk(i64, bool),
    /// Changes were applied, or discarded.
    Review(bool),
    ReviewAll(bool),
    /// Selected changes of that number of files were applied, or discarded.
    ReviewMarked(bool, usize),
    ReviewBox,
    BoxOp,
    RulesReloaded,
    /// The place of a row in its list.
    Find(FilterView),
    /// A process that wrote the change at the cursor, for going to another pane.
    Writer,
    /// The pipeline of the output at the cursor, for going to the pipelines.
    OutputPipeline,
    /// The numbers of the rows of a list that belong to those at the cursor.
    Translated(FilterView),
}

/// A step of the plan that is done here.
#[derive(Clone, Copy, Debug, PartialEq, Eq, Structural)]
pub enum Op {
    RefreshSessions,
    LoadChanges,
    LoadRules,
    LoadHunks,
    LoadFlowDetail,
    LoadPacketDetail,
    RefreshPrompt,
    RefreshSummary,
    /// Fetches the window of a list that begins at a row.
    Fetch(FilterView, usize),
    /// Puts the cursor of a list on its first row that is not a mere connection.
    SeekFirst(FilterView),
    /// Puts the cursor of a list on its last row.
    SeekLast(FilterView),
    /// Puts the cursor on a place of the whole list, in the direction it came from.
    Settle(FilterView, usize, bool),
    /// Moves the cursor of a list by one, forward or back.
    Advance(FilterView, bool),
    /// The same where the cursor is on a mere connection.
    OffConnector(FilterView, bool),
    /// Puts the cursor of a list on the row of a number again.
    Repin(FilterView, usize, Option<i64>),
    /// Puts the cursor of the changes on the row of the remembered path again.
    RepinPath(usize),
    /// The same after a hunk was taken out; then the diff is loaded.
    RepinHunk,
    /// Puts the cursor of a list on a place of the whole list.
    Place(FilterView, usize),
    ScrollTo(FilterView, i64),
    /// Opens the changes again after a hunk was taken out of them.
    ReopenForHunk,
    /// Clears the selection.
    ClearMarks,
    /// The selected boxes are done with: what was applied, or discarded.
    FinishBatch(bool),
    FinishKill,
    FinishDissolve,
    /// Offers the models where no endpoint is set up.
    OfferModels,
    ApiLogRows,
    /// Goes to a pane; what was shown is remembered.
    Visit(Pane),
    /// Turns the numbers that were collected into numbers of rows of a list, and narrows it to
    /// them.
    Translate(Domain, FilterView),
    /// The pane gets the keys.
    Focus(Pane),
    LoadIfNeeded(FilterView),
    LoadApiIfNeeded,
    LoadWebIfNeeded,
    LoadFlows,
    /// Restores the view that was gone back to.
    Restore,
    /// Puts the cursor of the variables back.
    VarCursor(usize),
    /// The view is restored, but for the detail: whether it gets the keys, and its scroll.
    EndBack(bool, u16),
}

/// A step of the plan.
#[derive(Debug)]
pub enum Step {
    /// A call to the engine.
    Call { verb: &'static str, args: Vec<Json>, then: Then },
    Op(Op),
    /// A message for the status line.
    Say(String),
    Rename { sid: String, name: String },
    Shutdown,
    /// A terminal with a program.
    OpenPty { argv: Vec<String> },
    /// The terminal of that number is closed.
    ClosePty(usize),
    /// Bytes for the program of the terminal at the cursor.
    Input(Vec<u8>),
    /// A new size of the terminal at the cursor: rows and columns.
    Resize(u16, u16),
    WriteRules(String),
    ReadRules,
    ReadImageConf,
    LoadImage(String),
    FetchModels,
    Probe { base_url: String, model: String, api_key: String },
    ReadApiConfig,
    WriteApiConfig(String),
    ReadEndpoint,
    ReadPtyCommand,
    ReadBrowserKey,
    /// The rest of a structural diff: the engine's number for it, and for which change.
    FinishStruct(i64, u64),
}

/// What a step is.
pub enum StepV {
    Call(Seq<char>, Seq<JV>, Then),
    Op(Op),
    Say(Seq<char>),
    Rename(Seq<char>, Seq<char>),
    Shutdown,
    OpenPty(Seq<Seq<char>>),
    ClosePty(int),
    Input(Seq<u8>),
    Resize(u16, u16),
    WriteRules(Seq<char>),
    ReadRules,
    ReadImageConf,
    LoadImage(Seq<char>),
    FetchModels,
    Probe(Seq<char>, Seq<char>, Seq<char>),
    ReadApiConfig,
    WriteApiConfig(Seq<char>),
    ReadEndpoint,
    ReadPtyCommand,
    ReadBrowserKey,
    FinishStruct(i64, u64),
}

impl Step {
    pub open spec fn view(&self) -> StepV {
        match *self {
            Step::Call { verb, args, then } => StepV::Call(verb@, jvs(args@), then),
            Step::Op(op) => StepV::Op(op),
            Step::Say(s) => StepV::Say(s@),
            Step::Rename { sid, name } => StepV::Rename(sid@, name@),
            Step::Shutdown => StepV::Shutdown,
            Step::OpenPty { argv } => StepV::OpenPty(strs(argv@)),
            Step::ClosePty(i) => StepV::ClosePty(i as int),
            Step::Input(b) => StepV::Input(b@),
            Step::Resize(r, c) => StepV::Resize(r, c),
            Step::WriteRules(t) => StepV::WriteRules(t@),
            Step::ReadRules => StepV::ReadRules,
            Step::ReadImageConf => StepV::ReadImageConf,
            Step::LoadImage(r) => StepV::LoadImage(r@),
            Step::FetchModels => StepV::FetchModels,
            Step::Probe { base_url, model, api_key } => StepV::Probe(base_url@, model@, api_key@),
            Step::ReadApiConfig => StepV::ReadApiConfig,
            Step::WriteApiConfig(t) => StepV::WriteApiConfig(t@),
            Step::ReadEndpoint => StepV::ReadEndpoint,
            Step::ReadPtyCommand => StepV::ReadPtyCommand,
            Step::ReadBrowserKey => StepV::ReadBrowserKey,
            Step::FinishStruct(j, g) => StepV::FinishStruct(j, g),
        }
    }
}

/// What the client was started with.
#[derive(Debug)]
pub struct Env {
    /// The engine's socket.
    pub sock: String,
    /// The path of this program.
    pub exe: String,
    /// The login shell of the host.
    pub shell: String,
}

/// The boxes.
#[derive(Debug)]
pub struct Boxes {
    pub sessions: Vec<Json>,
    pub sel: usize,
    /// What the engine tells of the box at the cursor.
    pub summary: Json,
    /// The name and the reference of each loaded image.
    pub images: Vec<(String, String)>,
    pub marks: Marks,
}

/// The lists that the engine keeps.
#[derive(Debug)]
pub struct Lists {
    pub changes: Win,
    pub processes: Win,
    pub outputs: Win,
    pub pipelines: Win,
    pub edges: Win,
}

/// What the lists hold besides the rows of their windows, and how they are shown.
#[derive(Debug)]
pub struct Shown {
    /// The number, the stream and the text of each output.
    pub output_segs: Vec<(i64, i64, String)>,
    pub pipelines_flat: Vec<Json>,
    pub edges_flat: Vec<Json>,
    pub pipe_tree: bool,
    pub pipe_running_only: bool,
    pub proc_running_only: bool,
    pub edges_running_only: bool,
    pub err_only: bool,
}

/// The change at the cursor.
#[derive(Debug)]
pub struct Diff {
    /// Its diff.
    pub hunks: Json,
    pub hunk_scroll: u16,
    pub sel_hunk: usize,
    /// Its header.
    pub cd_info: Option<Vec<(String, String)>>,
    /// The kind of each change of the window, and whether the host's file has changed meanwhile.
    pub decor: Vec<(String, bool)>,
    pub structd: StructState,
    /// The rest of a structural diff is being waited for.
    pub waiting: bool,
    /// The path of the row that the cursor is to stay on.
    pub pin: Option<String>,
    /// The kind of the change, and whether it is stale, while its header is being made.
    pub head: (String, bool),
}

/// What is loaded as a whole.
#[derive(Debug)]
pub struct Side {
    pub api: RowList,
    pub web: RowList,
    pub api_note: Vec<String>,
    pub rules: Vec<String>,
    pub sel_rule: usize,
    pub vars: Vars,
    pub flows: FlowList,
    pub packets: FlowList,
    pub packets_stream: i64,
    /// The box that the packets are of.
    pub packets_sid: Option<i64>,
}

/// What is on the screen.
#[derive(Debug)]
pub struct Ui {
    pub focus: Pane,
    pub status: String,
    /// The new name that is being typed.
    pub renaming: Option<String>,
    pub modal: Option<Modal>,
    pub should_quit: bool,
    pub right_focused: bool,
    pub right_scroll: u16,
    pub right_scroll_max: u16,
    pub out_scroll: u16,
    pub out_follow_scroll: u16,
    pub menu_nav: bool,
    pub menu_sel: usize,
    pub nav_history: Vec<NavSnapshot>,
    /// The view that is being gone back to.
    pub back: Option<NavSnapshot>,
}

/// The terminals that the engine holds.
#[derive(Debug)]
pub struct Terms {
    pub ptys: Vec<PtyInfo>,
    pub sel: usize,
    /// The terminal at the cursor stands beside a list.
    pub in_right: bool,
    /// When Esc was last pressed in a terminal, in milliseconds.
    pub esc_at: Option<u64>,
}

/// What is under way.
#[derive(Debug)]
pub struct Jobs {
    pub launch: Launch,
    pub load: Option<LoadJob>,
    pub models: bool,
    pub model_picker_offered: bool,
    pub probe: bool,
    pub prompt: Option<Json>,
    pub tally: Tally,
    /// The numbers that are collected for going to another pane.
    pub nav_ids: Vec<i64>,
}

/// The state of the client.
#[derive(Debug)]
pub struct App {
    pub env: Env,
    pub boxes: Boxes,
    pub lists: Lists,
    pub filters: Filters,
    pub shown: Shown,
    pub diff: Diff,
    pub side: Side,
    pub ui: Ui,
    pub terms: Terms,
    pub jobs: Jobs,
    /// The plan, its next step last.
    pub todo: Vec<Step>,
}

/// The names and references of images.
pub open spec fn pairs_v(v: Seq<(String, String)>) -> Seq<(Seq<char>, Seq<char>)> {
    v.map_values(|p: (String, String)| (p.0@, p.1@))
}

/// The value of a decimal digit.
pub open spec fn digit_value(c: char) -> int {
    c as u32 - 48
}

/// The number that a run of digits is; nothing where a character is no digit.
pub open spec fn digits_value(s: Seq<char>) -> Option<int>
    decreases s.len(),
{
    if s.len() == 0 {
        Some(0)
    } else if !('0' <= s.last() <= '9') {
        None
    } else {
        match digits_value(s.drop_last()) {
            Some(n) => Some(10 * n + digit_value(s.last())),
            None => None,
        }
    }
}

/// The 64-bit number that a text is: digits, with a sign before them or without one.
pub open spec fn parse_int(s: Seq<char>) -> Option<int> {
    let neg = s.len() > 0 && s[0] == '-';
    let body = if s.len() > 0 && (s[0] == '-' || s[0] == '+') { s.drop_first() } else { s };
    match digits_value(body) {
        Some(n) => {
            let v = if neg { -n } else { n };
            if body.len() > 0 && i64::MIN <= v <= i64::MAX { Some(v) } else { None }
        },
        None => None,
    }
}

proof fn lemma_digits_none(s: Seq<char>, i: int)
    requires
        0 <= i < s.len(),
        !('0' <= s[i] <= '9'),
    ensures
        digits_value(s) is None,
    decreases s.len(),
{
    if i < s.len() - 1 {
        assert(s.drop_last()[i] == s[i]);
        lemma_digits_none(s.drop_last(), i);
    }
}

proof fn lemma_digits_grow(s: Seq<char>, k: int)
    requires
        0 <= k <= s.len(),
        digits_value(s) is Some,
        digits_value(s.take(k)) is Some,
    ensures
        digits_value(s)->0 >= digits_value(s.take(k))->0 >= 0,
    decreases s.len(),
{
    if s.len() == 0 {
        assert(s.take(k) == s);
    } else if k < s.len() {
        assert(s.drop_last().take(k) == s.take(k));
        lemma_digits_grow(s.drop_last(), k);
    } else {
        assert(s.take(k) == s);
        assert(s.drop_last().take(s.len() - 1) == s.drop_last());
        lemma_digits_grow(s.drop_last(), s.len() - 1);
    }
}

/// Reads a 64-bit number.
pub fn parse_i64(s: &str) -> (r: Option<i64>)
    ensures
        match r {
            Some(n) => parse_int(s@) == Some(n as int),
            None => parse_int(s@) is None,
        },
{
    let v: Vec<char> = chars(s);
    let n: usize = v.len();
    let neg: bool = n > 0 && v[0] == '-';
    let from: usize = if n > 0 && (v[0] == '-' || v[0] == '+') { 1 } else { 0 };
    let ghost body = if from == 1 { s@.drop_first() } else { s@ };
    assert(body == v@.skip(from as int));
    if from == n {
        return None;
    }
    let mut acc: u64 = 0;
    let mut i: usize = from;
    let mut bad: bool = false;
    assert(body.take(0).len() == 0);
    while i < n
        invariant
            from <= i <= n == v@.len(),
            body == v@.skip(from as int),
            acc <= 0x8000_0000_0000_0000,
            !bad ==> digits_value(body.take(i - from)) == Some(acc as int),
            bad ==> (digits_value(body) is None || digits_value(body)->0 > 0x8000_0000_0000_0000),
        decreases n - i,
    {
        let c: char = v[i];
        let ghost t = body.take(i - from + 1);
        assert(t.drop_last() == body.take(i - from));
        assert(t.last() == c);
        if !('0' <= c && c <= '9') {
            bad = true;
            proof {
                assert(body[i - from] == c);
                lemma_digits_none(body, i - from);
            }
        } else if !bad {
            let d: u64 = (c as u8 - 48) as u64;
            if acc > 922337203685477580 || acc * 10 + d > 0x8000_0000_0000_0000 {
                bad = true;
                proof {
                    if digits_value(body) is Some {
                        lemma_digits_grow(body, i - from + 1);
                    }
                }
            } else {
                acc = acc * 10 + d;
            }
        }
        i += 1;
    }
    assert(body.take(n - from) == body);
    if bad {
        None
    } else if neg {
        if acc == 0x8000_0000_0000_0000 {
            Some(i64::MIN)
        } else {
            Some(-(acc as i64))
        }
    } else if acc == 0x8000_0000_0000_0000 {
        None
    } else {
        Some(acc as i64)
    }
}

/// The member `k` of the row `i`.
pub open spec fn row_str(rows: Seq<Json>, i: int, k: Seq<char>) -> Option<Seq<char>> {
    if 0 <= i < rows.len() { rows[i]@.get_str(k) } else { None }
}

impl Lists {
    pub open spec fn win(self, v: FilterView) -> Win {
        match v {
            FilterView::Changes => self.changes,
            FilterView::Procs => self.processes,
            FilterView::Outputs => self.outputs,
            FilterView::Pipelines => self.pipelines,
            FilterView::BuildEdges => self.edges,
        }
    }
}

impl Filters {
    pub open spec fn of(self, v: FilterView) -> ViewFilter {
        match v {
            FilterView::Changes => self.changes,
            FilterView::Procs => self.procs,
            FilterView::Outputs => self.outputs,
            FilterView::Pipelines => self.pipelines,
            FilterView::BuildEdges => self.edges,
        }
    }
}

impl App {
    /// The steps that are still to be done, the next one first.
    pub open spec fn plan(self) -> Seq<StepV> {
        self.todo@.map_values(|s: Step| s@).reverse()
    }

    /// The number of the box at the cursor, as the engine writes it.
    pub open spec fn sid(self) -> Option<Seq<char>> {
        row_str(self.boxes.sessions@, self.boxes.sel as int, "session_id"@)
    }

    pub open spec fn sid_num(self) -> Option<int> {
        match self.sid() {
            Some(s) => parse_int(s),
            None => None,
        }
    }

    /// The path of the change at the cursor.
    pub open spec fn change_path(self) -> Option<Seq<char>> {
        row_str(self.lists.changes.rows@, self.lists.changes.sel as int, "path"@)
    }

    /// The box at the cursor is running.
    pub open spec fn live(self) -> bool {
        row_str(self.boxes.sessions@, self.boxes.sel as int, "status"@) == Some("running"@)
    }

    pub open spec fn win(self, v: FilterView) -> Win {
        self.lists.win(v)
    }

    pub open spec fn filter(self, v: FilterView) -> ViewFilter {
        self.filters.of(v)
    }

    /// Puts a step before all others.
    pub fn first(&mut self, s: Step)
        ensures
            final(self).plan() == seq![s@] + old(self).plan(),
            *final(self) == (App { todo: final(self).todo, ..*old(self) }),
    {
        self.todo.push(s);
        assert(self.plan() =~= seq![s@] + old(self).plan());
    }

    /// Puts a call to the engine before all other steps.
    pub fn first_call(&mut self, verb: &'static str, args: Vec<Json>, then: Then)
        ensures
            final(self).plan() == seq![StepV::Call(verb@, jvs(args@), then)] + old(self).plan(),
            *final(self) == (App { todo: final(self).todo, ..*old(self) }),
    {
        self.first(Step::Call { verb, args, then });
    }

    /// Puts a step that is done here before all others.
    pub fn first_op(&mut self, op: Op)
        ensures
            final(self).plan() == seq![StepV::Op(op)] + old(self).plan(),
            *final(self) == (App { todo: final(self).todo, ..*old(self) }),
    {
        self.first(Step::Op(op));
    }

    /// Puts a message before all other steps.
    pub fn first_say(&mut self, s: &str)
        ensures
            final(self).plan() == seq![StepV::Say(s@)] + old(self).plan(),
            *final(self) == (App { todo: final(self).todo, ..*old(self) }),
    {
        self.first(Step::Say(own(s)));
    }

    /// Writes a message on the status line.
    pub fn say(&mut self, s: &str)
        ensures
            final(self).ui.status@ == s@,
            *final(self) == (App { ui: (Ui { status: final(self).ui.status, ..old(self).ui }), ..*old(self) }),
    {
        self.ui.status = own(s);
    }

    pub fn cur_sid(&self) -> (r: Option<&str>)
        ensures
            opt_chars(r) == self.sid(),
    {
        if self.boxes.sel < self.boxes.sessions.len() {
            self.boxes.sessions[self.boxes.sel].get_str("session_id")
        } else {
            None
        }
    }

    pub fn cur_sid_i64(&self) -> (r: Option<i64>)
        ensures
            match r {
                Some(n) => self.sid_num() == Some(n as int),
                None => self.sid_num() is None,
            },
    {
        match self.cur_sid() {
            Some(s) => parse_i64(s),
            None => None,
        }
    }

    pub fn cur_session_live(&self) -> (r: bool)
        ensures
            r == self.live(),
    {
        if self.boxes.sel < self.boxes.sessions.len() {
            match self.boxes.sessions[self.boxes.sel].get_str("status") {
                Some(s) => crate::text::same(s, "running"),
                None => false,
            }
        } else {
            false
        }
    }

    pub fn cur_change_path(&self) -> (r: Option<&str>)
        ensures
            opt_chars(r) == self.change_path(),
    {
        if self.lists.changes.sel < self.lists.changes.rows.len() {
            self.lists.changes.rows[self.lists.changes.sel].get_str("path")
        } else {
            None
        }
    }

    pub fn window(&self, v: FilterView) -> (r: &Win)
        ensures
            *r == self.win(v),
    {
        match v {
            FilterView::Changes => &self.lists.changes,
            FilterView::Procs => &self.lists.processes,
            FilterView::Outputs => &self.lists.outputs,
            FilterView::Pipelines => &self.lists.pipelines,
            FilterView::BuildEdges => &self.lists.edges,
        }
    }

    pub fn view_filter(&self, v: FilterView) -> (r: &ViewFilter)
        ensures
            *r == self.filter(v),
    {
        match v {
            FilterView::Changes => &self.filters.changes,
            FilterView::Procs => &self.filters.procs,
            FilterView::Outputs => &self.filters.outputs,
            FilterView::Pipelines => &self.filters.pipelines,
            FilterView::BuildEdges => &self.filters.edges,
        }
    }

    /// The network mode that a launch uses: the chosen one, but `host` in place of `tap` where
    /// `tap` does not work.
    pub open spec fn net(self) -> Seq<char> {
        if self.jobs.launch.net == NetMode::Tap && !self.jobs.launch.tap_ok { "host"@ } else { net_name(self.jobs.launch.net) }
    }

    /// The choices of a launch, but for where its box sits.
    pub open spec fn how_v(self, placement: PlacementV) -> HowV {
        HowV { net: self.net(), env: self.jobs.launch.env, placement, webcap: false, webfilter: false }
    }

    pub fn how(&self, placement: Placement) -> (r: How)
        ensures
            r@ == self.how_v(placement@),
    {
        How {
            net: own(effective_net(self)),
            env: self.jobs.launch.env,
            placement,
            webcap: false,
            webfilter: false,
        }
    }
}

/// The network mode that a launch uses.
pub fn effective_net(app: &App) -> (r: &'static str)
    ensures
        r@ == app.net(),
{
    if app.jobs.launch.net == NetMode::Tap && !app.jobs.launch.tap_ok {
        "host"
    } else {
        app.jobs.launch.net.name()
    }
}

} // verus!
