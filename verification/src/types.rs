//! The parts of the client's state: panes, filters, menus, dialogs.

use vstd::prelude::*;

use crate::json::Json;
#[allow(unused_imports)]
use crate::json::{jvs, JV};
use crate::rules::{copy_clauses, wrap_bare_as_substring, Clause, Join, Match};
#[allow(unused_imports)]
use crate::rules::{clauses, wrapped, ClauseV};
use crate::text::{same, trim};
#[allow(unused_imports)]
use crate::text::{strs, trimmed};

verus! {

/// The panes.
#[derive(Clone, Copy, Debug, PartialEq, Eq, Structural)]
pub enum Pane {
    Sessions,
    Changes,
    Hunks,
    Processes,
    Outputs,
    Pipelines,
    BuildEdges,
    Rules,
    Vars,
    Flows,
    ApiLogs,
    Network,
    Packets,
    Help,
    Pty,
}

/// The lists that a filter can narrow.
#[derive(Clone, Copy, Debug, PartialEq, Eq, Structural)]
pub enum FilterView {
    Changes,
    Procs,
    Outputs,
    Pipelines,
    BuildEdges,
}

/// The kinds of clause that a list offers.
pub open spec fn kinds_of(v: FilterView) -> Seq<Seq<char>> {
    match v {
        FilterView::Changes => seq!["path"@, "box"@, "exe"@, "cwd"@, "arg"@],
        FilterView::Pipelines => seq!["cmd"@],
        FilterView::BuildEdges => seq!["target"@, "cmd"@],
        _ => seq!["box"@, "exe"@, "cwd"@, "arg"@],
    }
}

pub open spec fn default_kind_of(v: FilterView) -> Seq<char> {
    match v {
        FilterView::Changes => "path"@,
        FilterView::Pipelines => "cmd"@,
        FilterView::BuildEdges => "target"@,
        _ => "exe"@,
    }
}

/// The characters of each of a list of string slices.
pub open spec fn slices(v: Seq<&'static str>) -> Seq<Seq<char>> {
    v.map_values(|s: &'static str| s@)
}

impl FilterView {
    pub fn kinds(self) -> (r: Vec<&'static str>)
        ensures
            slices(r@) == kinds_of(self),
    {
        let r: Vec<&'static str> = match self {
            FilterView::Changes => vec!["path", "box", "exe", "cwd", "arg"],
            FilterView::Pipelines => vec!["cmd"],
            FilterView::BuildEdges => vec!["target", "cmd"],
            _ => vec!["box", "exe", "cwd", "arg"],
        };
        assert(slices(r@) =~= kinds_of(self));
        r
    }

    pub fn default_kind(self) -> (r: &'static str)
        ensures
            r@ == default_kind_of(self),
    {
        match self {
            FilterView::Changes => "path",
            FilterView::Pipelines => "cmd",
            FilterView::BuildEdges => "target",
            _ => "exe",
        }
    }
}

/// The filter of a list. A typed filter keeps its clauses while it is off; one that was made by
/// going from pane to pane is dropped as a whole.
#[derive(Debug)]
pub struct ViewFilter {
    pub clauses: Vec<Clause>,
    pub on: bool,
    pub generated: bool,
}

/// What a filter is.
#[verifier::ext_equal]
pub struct FilterV {
    pub clauses: Seq<ClauseV>,
    pub on: bool,
    pub generated: bool,
}

impl FilterV {
    pub open spec fn none() -> FilterV {
        FilterV { clauses: Seq::empty(), on: false, generated: false }
    }

    /// The filter narrows the list.
    pub open spec fn is_active(self) -> bool {
        self.on && self.clauses.len() > 0
    }
}

impl ViewFilter {
    pub open spec fn view(&self) -> FilterV {
        FilterV { clauses: clauses(self.clauses@), on: self.on, generated: self.generated }
    }

    /// No filter.
    pub fn new() -> (r: ViewFilter)
        ensures
            r@ == FilterV::none(),
    {
        let r: ViewFilter = ViewFilter { clauses: Vec::new(), on: false, generated: false };
        assert(r@.clauses =~= FilterV::none().clauses);
        r
    }

    /// The clauses that narrow the list; nothing where the filter is off or empty.
    pub fn active(&self) -> (r: Option<&Vec<Clause>>)
        ensures
            self@.is_active() ==> r == Some(&self.clauses),
            !self@.is_active() ==> r is None,
    {
        if self.on && self.clauses.len() > 0 {
            Some(&self.clauses)
        } else {
            None
        }
    }

    pub fn copy(&self) -> (r: ViewFilter)
        ensures
            r@ == self@,
    {
        ViewFilter { clauses: copy_clauses(&self.clauses), on: self.on, generated: self.generated }
    }
}

/// A clause as the engine is sent it.
pub open spec fn clause_json(c: ClauseV) -> JV {
    JV::Obj(
        seq![
            ("kind"@, JV::Str(c.kind)),
            ("pattern"@, JV::Str(c.pattern)),
            (
                "join"@,
                JV::Str(
                    match c.join {
                        Join::And => "and"@,
                        Join::Or => "or"@,
                    },
                ),
            ),
            ("negate"@, JV::Bool(c.negate)),
            ("enabled"@, JV::Bool(c.enabled)),
        ],
    )
}

/// A list of clauses as the engine is sent it.
pub open spec fn clauses_json(cs: Seq<ClauseV>) -> Seq<JV> {
    cs.map_values(|c: ClauseV| clause_json(c))
}

/// The filter that the engine is sent: nothing where there are no clauses that narrow the list.
pub open spec fn filter_json(cs: Option<Seq<ClauseV>>) -> JV {
    match cs {
        Some(v) => JV::Arr(clauses_json(v)),
        None => JV::Null,
    }
}

pub(crate) fn clause_to_json(c: &Clause) -> (r: Json)
    ensures
        r@ == clause_json(c@),
{
    let join: &str = match c.join {
        Join::And => "and",
        Join::Or => "or",
    };
    let r: Json = Json::obj().with("kind", Json::Str(c.m.kind.clone())).with(
        "pattern",
        Json::Str(c.m.pattern.clone()),
    ).with("join", Json::text(join)).with("negate", Json::Bool(c.negate)).with("enabled", Json::Bool(c.enabled));
    assert(r@->Obj_0 =~= clause_json(c@)->Obj_0);
    r
}

/// The clauses as the engine is sent them.
pub fn clauses_to_json(cs: &Vec<Clause>) -> (r: Vec<Json>)
    ensures
        jvs(r@) == clauses_json(clauses(cs@)),
{
    let mut out: Vec<Json> = Vec::new();
    let mut i: usize = 0;
    while i < cs.len()
        invariant
            i <= cs@.len(),
            out@.len() == i,
            forall|k: int| 0 <= k < i ==> (#[trigger] out@[k])@ == clause_json(cs@[k]@),
        decreases cs@.len() - i,
    {
        out.push(clause_to_json(&cs[i]));
        i += 1;
    }
    assert(jvs(out@) =~= clauses_json(clauses(cs@)));
    out
}

/// A list of values as one value.
pub fn arr(v: Vec<Json>) -> (r: Json)
    ensures
        r@ == JV::Arr(jvs(v@)),
{
    let r: Json = Json::Arr(v);
    assert(r@->Arr_0 =~= jvs(v@));
    r
}

/// The filter that the engine is sent.
pub fn filter_to_json(cs: Option<&Vec<Clause>>) -> (r: Json)
    ensures
        r@ == filter_json(
            match cs {
                Some(v) => Some(clauses(v@)),
                None => None,
            },
        ),
{
    match cs {
        Some(v) => arr(clauses_to_json(v)),
        None => Json::Null,
    }
}

/// One line of the filter editor.
#[derive(Debug)]
pub struct ClauseRow {
    pub enabled: bool,
    pub join: Join,
    pub negate: bool,
    pub kind: String,
    pub pattern: String,
}

impl ClauseRow {
    pub open spec fn view(&self) -> ClauseV {
        ClauseV {
            kind: self.kind@,
            pattern: self.pattern@,
            join: self.join,
            negate: self.negate,
            enabled: self.enabled,
        }
    }

    pub fn from_clause(c: &Clause) -> (r: ClauseRow)
        ensures
            r@ == c@,
    {
        ClauseRow {
            enabled: c.enabled,
            join: c.join,
            negate: c.negate,
            kind: c.m.kind.clone(),
            pattern: c.m.pattern.clone(),
        }
    }

    /// The clause of an edited line: plain text finds everything that holds it.
    pub fn to_clause(&self) -> (r: Clause)
        ensures
            r@ == committed(self@),
    {
        let t: String = trim(self.pattern.as_str());
        let pattern: String = if same(self.kind.as_str(), "cmd") || same(self.kind.as_str(), "ids") {
            t
        } else {
            wrap_bare_as_substring(t.as_str())
        };
        Clause {
            m: Match { kind: self.kind.clone(), pattern },
            join: self.join,
            negate: self.negate,
            enabled: self.enabled,
        }
    }
}

/// The clause that an edited line stands for: the kinds that are searched for text already keep
/// theirs, every other kind is a pattern, in which plain text is wrapped.
pub open spec fn committed(c: ClauseV) -> ClauseV {
    ClauseV {
        pattern: if c.kind == "cmd"@ || c.kind == "ids"@ { trimmed(c.pattern) } else { wrapped(trimmed(c.pattern)) },
        ..c
    }
}

/// The lines of the filter editor.
pub open spec fn rows_v(v: Seq<ClauseRow>) -> Seq<ClauseV> {
    v.map_values(|r: ClauseRow| r@)
}

/// One clause in words.
pub open spec fn clause_text(c: ClauseV, first: bool) -> Seq<char> {
    (if first {
        Seq::empty()
    } else {
        " "@ + (match c.join {
            Join::And => "and"@,
            Join::Or => "or"@,
        }) + " "@
    }) + (if c.negate { "not "@ } else { Seq::empty() }) + c.kind + ":"@ + c.pattern
}

/// A list of clauses in words, those that are switched off left out.
pub open spec fn expr_of(cs: Seq<ClauseV>) -> Seq<char>
    decreases cs.len(),
{
    if cs.len() == 0 {
        Seq::empty()
    } else if !cs.last().enabled {
        expr_of(cs.drop_last())
    } else {
        expr_of(cs.drop_last()) + clause_text(cs.last(), cs.len() == 1)
    }
}

/// A list of clauses as one line.
pub fn clauses_expr(cs: &Vec<Clause>) -> (r: String)
    ensures
        r@ == expr_of(clauses(cs@)),
{
    let mut s: String = String::new();
    let mut i: usize = 0;
    while i < cs.len()
        invariant
            i <= cs@.len(),
            s@ == expr_of(clauses(cs@).take(i as int)),
        decreases cs@.len() - i,
    {
        let ghost pre = clauses(cs@).take(i + 1);
        assert(pre.drop_last() == clauses(cs@).take(i as int));
        assert(pre.last() == cs@[i as int]@);
        let c: &Clause = &cs[i];
        if c.enabled {
            let ghost before = s@;
            if i > 0 {
                s.append(" ");
                s.append(
                    match c.join {
                        Join::And => "and",
                        Join::Or => "or",
                    },
                );
                s.append(" ");
            }
            if c.negate {
                s.append("not ");
            }
            s.append(c.m.kind.as_str());
            s.append(":");
            s.append(c.m.pattern.as_str());
            assert(s@ =~= before + clause_text(c@, i == 0));
        }
        i += 1;
    }
    assert(clauses(cs@).take(cs@.len() as int) == clauses(cs@));
    s
}

/// The column of the filter editor that the cursor is on.
#[derive(Clone, Copy, Debug, PartialEq, Eq, Structural)]
pub enum ClauseField {
    Enabled,
    Join,
    Negate,
    Kind,
    Pattern,
}

/// What a confirmation is asked for.
#[derive(Clone, Copy, Debug, PartialEq, Eq, Structural)]
pub enum ConfirmAction {
    Kill,
    Dissolve,
}

/// What an entry of a menu does.
#[derive(Clone, Copy, Debug, PartialEq, Eq, Structural)]
pub enum Action {
    OpenSelection,
    ApplyFile,
    DiscardFile,
    ApplyHunk,
    DiscardHunk,
    ApplyBox,
    DiscardBox,
    DissolveBox,
    KillBox,
    StartRename,
    EditRule,
    NewRule,
    DeleteRule,
    MoveRuleUp,
    MoveRuleDown,
    PtyNew,
    PtyKill,
    PtyEmbedToggle,
    PtyNewBoxShell,
    PtyNewHostShell,
    PtyNewCustom,
    NewFromImage,
    RunSelectedImage,
    BrowserCarbonyl,
    OaitaLocalPty,
    OaitaOnSelectedBox,
    OpenModelPicker,
    OpenApiConfig,
}

/// An entry of a menu.
#[derive(Debug)]
pub struct ActionItem {
    pub label: String,
    pub hint: &'static str,
    pub action: Action,
}

/// What an entry of a menu is.
pub struct ItemV {
    pub label: Seq<char>,
    pub hint: Seq<char>,
    pub action: Action,
}

impl ActionItem {
    pub open spec fn view(&self) -> ItemV {
        ItemV { label: self.label@, hint: self.hint@, action: self.action }
    }
}

pub open spec fn items_v(v: Seq<ActionItem>) -> Seq<ItemV> {
    v.map_values(|i: ActionItem| i@)
}

/// A level of the image picker.
#[derive(Debug)]
pub struct PickLevel {
    pub items: Vec<PickItem>,
    pub sel: usize,
}

/// An entry of the image picker.
#[derive(Debug)]
pub struct PickItem {
    pub label: String,
    pub detail: String,
    pub next: PickNext,
}

/// What an entry of the image picker leads to.
#[derive(Debug)]
pub enum PickNext {
    /// Another level.
    Menu(Vec<PickItem>),
    /// The image of that reference is fetched.
    Pull(String),
    /// A container is started on the loaded image of that name.
    RunLocal(String),
    /// A reference is typed, from that beginning on.
    EnterRef(String),
}

/// What an entry of the image picker is.
pub struct PickV {
    pub label: Seq<char>,
    pub detail: Seq<char>,
    pub next: NextV,
}

/// What an entry of the image picker leads to.
pub enum NextV {
    Menu(Seq<PickV>),
    Pull(Seq<char>),
    RunLocal(Seq<char>),
    EnterRef(Seq<char>),
}

pub open spec fn pick_v(p: PickItem) -> PickV
    decreases p,
{
    PickV { label: p.label@, detail: p.detail@, next: next_v(p.next) }
}

pub open spec fn next_v(n: PickNext) -> NextV
    decreases n,
{
    match n {
        PickNext::Menu(v) => NextV::Menu(
            Seq::new(
                v@.len(),
                |i: int|
                    if 0 <= i < v@.len() {
                        pick_v(v@[i])
                    } else {
                        arbitrary()
                    },
            ),
        ),
        PickNext::Pull(s) => NextV::Pull(s@),
        PickNext::RunLocal(s) => NextV::RunLocal(s@),
        PickNext::EnterRef(s) => NextV::EnterRef(s@),
    }
}

/// The entries of a level.
pub open spec fn picks(v: Seq<PickItem>) -> Seq<PickV> {
    v.map_values(|p: PickItem| pick_v(p))
}

impl PickItem {
    pub fn copy(&self) -> (r: PickItem)
        ensures
            pick_v(r) == pick_v(*self),
        decreases self,
    {
        let next: PickNext = self.next.copy();
        PickItem { label: self.label.clone(), detail: self.detail.clone(), next }
    }
}

impl PickNext {
    pub fn copy(&self) -> (r: PickNext)
        ensures
            next_v(r) == next_v(*self),
        decreases self,
    {
        match self {
            PickNext::Menu(v) => {
                let mut out: Vec<PickItem> = Vec::new();
                let mut i: usize = 0;
                while i < v.len()
                    invariant
                        i <= v@.len(),
                        out@.len() == i,
                        *self == PickNext::Menu(*v),
                        forall|k: int| 0 <= k < i ==> pick_v(#[trigger] out@[k]) == pick_v(v@[k]),
                    decreases v@.len() - i,
                {
                    assert(decreases_to!(*self => self->Menu_0));
                    assert(decreases_to!(*v => v@));
                    assert(decreases_to!(v@ => v@[i as int]));
                    out.push(v[i].copy());
                    i += 1;
                }
                let r: PickNext = PickNext::Menu(out);
                assert(next_v(r)->Menu_0 =~= next_v(*self)->Menu_0);
                r
            },
            PickNext::Pull(s) => PickNext::Pull(s.clone()),
            PickNext::RunLocal(s) => PickNext::RunLocal(s.clone()),
            PickNext::EnterRef(s) => PickNext::EnterRef(s.clone()),
        }
    }
}

/// A model that can be served.
#[derive(Debug)]
pub struct ModelRow {
    pub name: String,
    pub url: String,
    pub note: String,
}

/// What a model is.
pub struct ModelV {
    pub name: Seq<char>,
    pub url: Seq<char>,
    pub note: Seq<char>,
}

impl ModelRow {
    pub open spec fn view(&self) -> ModelV {
        ModelV { name: self.name@, url: self.url@, note: self.note@ }
    }
}

pub open spec fn models_v(v: Seq<ModelRow>) -> Seq<ModelV> {
    v.map_values(|m: ModelRow| m@)
}

/// A field of the endpoint editor.
#[derive(Clone, Copy, Debug, PartialEq, Eq, Structural)]
pub enum ApiField {
    Model,
    BaseUrl,
    ApiKey,
}

/// The dialogs. While one is open it gets every key.
#[derive(Debug)]
pub enum Modal {
    Confirm { prompt: String, action: ConfirmAction },
    Search { view: FilterView, rows: Vec<ClauseRow>, sel: usize, field: ClauseField },
    RuleForm { buf: String, editing: Option<usize> },
    PtyCmd { buf: String },
    BrowserUrl { buf: String, spki: String },
    VarQuery { buf: String },
    ActionMenu { title: String, items: Vec<ActionItem>, sel: usize },
    ImagePicker { crumbs: Vec<String>, stack: Vec<PickLevel> },
    ImageRef { buf: String },
    Launcher { items: Vec<ActionItem>, sel: usize },
    OaitaTask { box_name: String, session: String, buf: String },
    ModelPicker { models: Vec<ModelRow>, source: String, sel: usize, loading: bool },
    ModelUrl { buf: String },
    ApiConfig {
        base_url: String,
        model: String,
        api_key: String,
        slot: ApiField,
        result: String,
        testing: bool,
    },
}

/// A level of the image picker.
pub struct LevelV {
    pub items: Seq<PickV>,
    pub sel: int,
}

impl PickLevel {
    pub open spec fn view(&self) -> LevelV {
        LevelV { items: picks(self.items@), sel: self.sel as int }
    }
}

pub open spec fn levels_v(v: Seq<PickLevel>) -> Seq<LevelV> {
    v.map_values(|l: PickLevel| l@)
}

/// What a dialog is.
pub enum ModalV {
    Confirm { prompt: Seq<char>, action: ConfirmAction },
    Search { view: FilterView, rows: Seq<ClauseV>, sel: int, field: ClauseField },
    RuleForm { buf: Seq<char>, editing: Option<usize> },
    PtyCmd { buf: Seq<char> },
    BrowserUrl { buf: Seq<char>, spki: Seq<char> },
    VarQuery { buf: Seq<char> },
    ActionMenu { title: Seq<char>, items: Seq<ItemV>, sel: int },
    ImagePicker { crumbs: Seq<Seq<char>>, stack: Seq<LevelV> },
    ImageRef { buf: Seq<char> },
    Launcher { items: Seq<ItemV>, sel: int },
    OaitaTask { box_name: Seq<char>, session: Seq<char>, buf: Seq<char> },
    ModelPicker { models: Seq<ModelV>, source: Seq<char>, sel: int, loading: bool },
    ModelUrl { buf: Seq<char> },
    ApiConfig {
        base_url: Seq<char>,
        model: Seq<char>,
        api_key: Seq<char>,
        slot: ApiField,
        result: Seq<char>,
        testing: bool,
    },
}

impl Modal {
    pub open spec fn view(&self) -> ModalV {
        match *self {
            Modal::Confirm { prompt, action } => ModalV::Confirm { prompt: prompt@, action },
            Modal::Search { view, rows, sel, field } => ModalV::Search {
                view,
                rows: rows_v(rows@),
                sel: sel as int,
                field,
            },
            Modal::RuleForm { buf, editing } => ModalV::RuleForm { buf: buf@, editing },
            Modal::PtyCmd { buf } => ModalV::PtyCmd { buf: buf@ },
            Modal::BrowserUrl { buf, spki } => ModalV::BrowserUrl { buf: buf@, spki: spki@ },
            Modal::VarQuery { buf } => ModalV::VarQuery { buf: buf@ },
            Modal::ActionMenu { title, items, sel } => ModalV::ActionMenu {
                title: title@,
                items: items_v(items@),
                sel: sel as int,
            },
            Modal::ImagePicker { crumbs, stack } => ModalV::ImagePicker {
                crumbs: strs(crumbs@),
                stack: levels_v(stack@),
            },
            Modal::ImageRef { buf } => ModalV::ImageRef { buf: buf@ },
            Modal::Launcher { items, sel } => ModalV::Launcher { items: items_v(items@), sel: sel as int },
            Modal::OaitaTask { box_name, session, buf } => ModalV::OaitaTask {
                box_name: box_name@,
                session: session@,
                buf: buf@,
            },
            Modal::ModelPicker { models, source, sel, loading } => ModalV::ModelPicker {
                models: models_v(models@),
                source: source@,
                sel: sel as int,
                loading,
            },
            Modal::ModelUrl { buf } => ModalV::ModelUrl { buf: buf@ },
            Modal::ApiConfig { base_url, model, api_key, slot, result, testing } => ModalV::ApiConfig {
                base_url: base_url@,
                model: model@,
                api_key: api_key@,
                slot,
                result: result@,
                testing,
            },
        }
    }
}

/// What an open dialog is.
pub open spec fn modal_v(m: Option<Modal>) -> Option<ModalV> {
    match m {
        Some(x) => Some(x@),
        None => None,
    }
}

/// An entry of the go-back history.
#[derive(Debug)]
pub struct NavSnapshot {
    pub pane: Pane,
    /// The filter of the pane, where it has one.
    pub filter: Option<ViewFilter>,
    /// The place of the cursor in the whole list.
    pub cursor: usize,
    pub right_scroll: u16,
    pub right_focused: bool,
    pub err_only: bool,
    pub vars_query: (String, String),
    pub vars_any: bool,
}

/// What an entry of the history is.
pub struct SnapV {
    pub pane: Pane,
    pub filter: Option<FilterV>,
    pub cursor: int,
    pub right_scroll: u16,
    pub right_focused: bool,
    pub err_only: bool,
    pub vars_query: (Seq<char>, Seq<char>),
    pub vars_any: bool,
}

impl NavSnapshot {
    pub open spec fn view(&self) -> SnapV {
        SnapV {
            pane: self.pane,
            filter: match self.filter {
                Some(f) => Some(f@),
                None => None,
            },
            cursor: self.cursor as int,
            right_scroll: self.right_scroll,
            right_focused: self.right_focused,
            err_only: self.err_only,
            vars_query: (self.vars_query.0@, self.vars_query.1@),
            vars_any: self.vars_any,
        }
    }
}

pub open spec fn snaps(v: Seq<NavSnapshot>) -> Seq<SnapV> {
    v.map_values(|s: NavSnapshot| s@)
}

/// Text with a style tag, as the engine sends the lines of a structural diff.
pub open spec fn tagged(v: Seq<(String, String)>) -> Seq<(Seq<char>, Seq<char>)> {
    v.map_values(|p: (String, String)| (p.0@, p.1@))
}

/// The structural diff of a binary change.
#[derive(Debug)]
pub struct StructState {
    /// Counts the changes that were looked at: a late result of an earlier one is dropped.
    pub generation: u64,
    pub job: Option<i64>,
    pub quick_lines: Vec<(String, String)>,
    pub full_lines: Option<Vec<(String, String)>>,
    pub spin: usize,
    pub pending: bool,
    pub hex_lines: Vec<String>,
    pub header: Vec<(String, String)>,
}

impl StructState {
    pub fn new() -> (r: StructState)
        ensures
            r.generation == 0,
            r.job is None,
            r.quick_lines@.len() == 0,
            r.full_lines is None,
            r.spin == 0,
            !r.pending,
            r.hex_lines@.len() == 0,
            r.header@.len() == 0,
    {
        StructState {
            generation: 0,
            job: None,
            quick_lines: Vec::new(),
            full_lines: None,
            spin: 0,
            pending: false,
            hex_lines: Vec::new(),
            header: Vec::new(),
        }
    }
}

/// A window of a list that the engine keeps: some of its rows, where they begin in the whole
/// list, and which of them the cursor is on.
#[derive(Debug)]
pub struct Win {
    pub rows: Vec<Json>,
    /// The engine's number for the list.
    pub view: Option<u64>,
    /// The box that the list is of.
    pub sid: Option<i64>,
    /// The number of rows of the whole list.
    pub total: usize,
    /// Where the window begins in the whole list.
    pub start: usize,
    /// The row of the window that the cursor is on.
    pub sel: usize,
}

impl Win {
    pub fn new() -> (r: Win)
        ensures
            r.rows@.len() == 0,
            r.view is None,
            r.sid is None,
            r.total == 0,
            r.start == 0,
            r.sel == 0,
    {
        Win { rows: Vec::new(), view: None, sid: None, total: 0, start: 0, sel: 0 }
    }
}

/// A terminal that the engine holds.
#[derive(Clone, Copy, Debug, PartialEq, Eq, Structural)]
pub struct PtyInfo {
    /// The program in it has ended.
    pub eof: bool,
    pub rows: u16,
    pub cols: u16,
}

/// An image that is being fetched.
#[derive(Debug)]
pub struct LoadJob {
    pub label: String,
    pub spin: usize,
}

} // verus!
