//! The keys: what each does, where its letter stands on the menu bar, and how it is explained.
//! The menu bar, the keys themselves and the help are all made from the tables here.

use vstd::prelude::*;

use crate::app::App;
#[allow(unused_imports)]
use crate::json::jvs;
use crate::text::own;
use crate::types::{FilterView, Pane};

verus! {

/// A key.
#[derive(Clone, Copy, Debug, PartialEq, Eq, Structural)]
pub enum KeyCode {
    Char(char),
    Enter,
    Tab,
    BackTab,
    Backspace,
    Esc,
    Up,
    Down,
    Left,
    Right,
    Home,
    End,
    PageUp,
    PageDown,
    F(u8),
    Other,
}

/// The keys that are held down with another.
#[derive(Clone, Copy, Debug, PartialEq, Eq, Structural)]
pub struct Mods {
    pub ctrl: bool,
    pub alt: bool,
    pub shift: bool,
}

/// A key of the tables.
#[derive(Clone, Copy, Debug, PartialEq, Eq, Structural)]
pub enum Key {
    Char(char),
    Esc,
    Enter,
    Tab,
}

/// The key that a key of the tables is.
pub open spec fn code_of(k: Key) -> KeyCode {
    match k {
        Key::Char(c) => KeyCode::Char(c),
        Key::Esc => KeyCode::Esc,
        Key::Enter => KeyCode::Enter,
        Key::Tab => KeyCode::Tab,
    }
}

/// How a key of the tables is written.
pub open spec fn key_label(k: Key) -> Seq<char> {
    match k {
        Key::Char(c) => seq![c],
        Key::Esc => "Esc"@,
        Key::Enter => "Enter"@,
        Key::Tab => "Tab"@,
    }
}

impl Key {
    pub fn matches(self, code: KeyCode) -> (r: bool)
        ensures
            r == (code == code_of(self)),
    {
        match self {
            Key::Char(c) => code == KeyCode::Char(c),
            Key::Esc => code == KeyCode::Esc,
            Key::Enter => code == KeyCode::Enter,
            Key::Tab => code == KeyCode::Tab,
        }
    }

    pub fn label(self) -> (r: String)
        ensures
            r@ == key_label(self),
    {
        match self {
            Key::Char(c) => {
                let mut s: String = String::new();
                s.push(c);
                assert(s@ =~= seq![c]);
                s
            },
            Key::Esc => own("Esc"),
            Key::Enter => own("Enter"),
            Key::Tab => own("Tab"),
        }
    }
}

/// When the letter of a pane stands on the menu bar.
#[derive(Clone, Copy, Debug)]
pub enum Vis {
    Always,
    /// Where the box has rows of that name, or the pane is shown.
    Data(&'static str),
    /// Where a terminal is open.
    Pty,
}

/// When the letter of a pane stands on the menu bar.
pub enum VisV {
    Always,
    Data(Seq<char>),
    Pty,
}

impl Vis {
    pub open spec fn view(&self) -> VisV {
        match *self {
            Vis::Always => VisV::Always,
            Vis::Data(k) => VisV::Data(k@),
            Vis::Pty => VisV::Pty,
        }
    }
}

/// A pane that a letter goes to.
#[derive(Clone, Copy, Debug)]
pub struct PaneKey {
    pub key: char,
    pub pane: Pane,
    pub label: &'static str,
    pub vis: Vis,
    pub help: &'static str,
}

/// A pane that a letter goes to.
#[verifier::ext_equal]
pub struct PaneKeyV {
    pub key: char,
    pub pane: Pane,
    pub label: Seq<char>,
    pub vis: VisV,
    pub help: Seq<char>,
}

impl PaneKey {
    pub open spec fn view(&self) -> PaneKeyV {
        PaneKeyV { key: self.key, pane: self.pane, label: self.label@, vis: self.vis@, help: self.help@ }
    }
}

pub open spec fn pane_row(key: char, pane: Pane, label: Seq<char>, vis: VisV, help: Seq<char>) -> PaneKeyV {
    PaneKeyV { key, pane, label, vis, help }
}

pub open spec fn pane_keys_v(v: Seq<PaneKey>) -> Seq<PaneKeyV> {
    v.map_values(|k: PaneKey| k@)
}

/// The panes and their letters.
pub open spec fn pane_table() -> Seq<PaneKeyV> {
    seq![
        pane_row('b', Pane::Sessions, "Boxes"@, VisV::Always, "boxes/sessions — the box list (path · id · status · cmd)"@),
        pane_row('c', Pane::Changes, "Changes"@, VisV::Always, "changes — files the box wrote (Enter → its diff)"@),
        pane_row('p', Pane::Processes, "Procs"@, VisV::Data("processes"@), "processes — the captured process TREE (exe · argv · env)"@),
        pane_row('o', Pane::Outputs, "Outputs"@, VisV::Data("outputs"@), "outputs — decoded stdout/stderr transcript"@),
        pane_row('l', Pane::Pipelines, "Pipes"@, VisV::Data("pipelines"@), "pipeLines — shell pipelines a -b box ran (parsed structure)"@),
        pane_row('g', Pane::BuildEdges, "Build"@, VisV::Data("edges"@), "build Graph — parsed ninja/make build edges from a -b box"@),
        pane_row('f', Pane::Flows, "Flows"@, VisV::Always, "network flows — tshark-decoded HTTP/TLS from a -n box's pcap"@),
        pane_row('e', Pane::Rules, "Rules"@, VisV::Always, "file rules — the ordered apply/discard/passthrough rules"@),
        pane_row('P', Pane::Pty, "PTYs"@, VisV::Pty, "open an engine-held PTY — a live interactive shell pane"@),
        pane_row('i', Pane::ApiLogs, "Api"@, VisV::Always, "the --api oaita proxy log"@),
        pane_row('w', Pane::Network, "Web"@, VisV::Always, "web captures — tap MITM HTTP(S) content archive (headers + body)"@),
        pane_row('v', Pane::Vars, "Vars"@, VisV::Data("makevar"@), "variable provenance — make + shell assignments ('/' queries)"@),
        pane_row('?', Pane::Help, "Help"@, VisV::Always, "this help"@),
    ]
}

/// The panes and their letters.
pub fn pane_keys() -> (r: Vec<PaneKey>)
    ensures
        pane_keys_v(r@) == pane_table(),
{
    let r: Vec<PaneKey> = vec![
        PaneKey { key: 'b', pane: Pane::Sessions, label: "Boxes", vis: Vis::Always, help: "boxes/sessions — the box list (path · id · status · cmd)" },
        PaneKey { key: 'c', pane: Pane::Changes, label: "Changes", vis: Vis::Always, help: "changes — files the box wrote (Enter → its diff)" },
        PaneKey { key: 'p', pane: Pane::Processes, label: "Procs", vis: Vis::Data("processes"), help: "processes — the captured process TREE (exe · argv · env)" },
        PaneKey { key: 'o', pane: Pane::Outputs, label: "Outputs", vis: Vis::Data("outputs"), help: "outputs — decoded stdout/stderr transcript" },
        PaneKey { key: 'l', pane: Pane::Pipelines, label: "Pipes", vis: Vis::Data("pipelines"), help: "pipeLines — shell pipelines a -b box ran (parsed structure)" },
        PaneKey { key: 'g', pane: Pane::BuildEdges, label: "Build", vis: Vis::Data("edges"), help: "build Graph — parsed ninja/make build edges from a -b box" },
        PaneKey { key: 'f', pane: Pane::Flows, label: "Flows", vis: Vis::Always, help: "network flows — tshark-decoded HTTP/TLS from a -n box's pcap" },
        PaneKey { key: 'e', pane: Pane::Rules, label: "Rules", vis: Vis::Always, help: "file rules — the ordered apply/discard/passthrough rules" },
        PaneKey { key: 'P', pane: Pane::Pty, label: "PTYs", vis: Vis::Pty, help: "open an engine-held PTY — a live interactive shell pane" },
        PaneKey { key: 'i', pane: Pane::ApiLogs, label: "Api", vis: Vis::Always, help: "the --api oaita proxy log" },
        PaneKey { key: 'w', pane: Pane::Network, label: "Web", vis: Vis::Always, help: "web captures — tap MITM HTTP(S) content archive (headers + body)" },
        PaneKey { key: 'v', pane: Pane::Vars, label: "Vars", vis: Vis::Data("makevar"), help: "variable provenance — make + shell assignments ('/' queries)" },
        PaneKey { key: '?', pane: Pane::Help, label: "Help", vis: Vis::Always, help: "this help" },
    ];
    assert(pane_keys_v(r@) =~= pane_table());
    r
}

/// What a key of the confirmation dialog does.
#[derive(Clone, Copy, Debug, PartialEq, Eq, Structural)]
pub enum ConfirmKey {
    Yes,
    No,
}

/// What a key of the confirmation dialog does; nothing where it is none of its keys.
pub open spec fn confirm_of(code: KeyCode) -> Option<ConfirmKey> {
    if code == KeyCode::Char('y') || code == KeyCode::Char('Y') {
        Some(ConfirmKey::Yes)
    } else if code == KeyCode::Char('n') || code == KeyCode::Char('N') || code == KeyCode::Esc {
        Some(ConfirmKey::No)
    } else {
        None
    }
}

/// The keys of the confirmation dialog, and how each is explained.
pub fn confirm_keys() -> (r: Vec<(Key, ConfirmKey, &'static str)>)
    ensures
        r@ == seq![
            (Key::Char('y'), ConfirmKey::Yes, "confirm"),
            (Key::Char('Y'), ConfirmKey::Yes, "confirm"),
            (Key::Char('n'), ConfirmKey::No, "cancel"),
            (Key::Char('N'), ConfirmKey::No, "cancel"),
            (Key::Esc, ConfirmKey::No, "cancel"),
        ],
{
    let r: Vec<(Key, ConfirmKey, &'static str)> = vec![
        (Key::Char('y'), ConfirmKey::Yes, "confirm"),
        (Key::Char('Y'), ConfirmKey::Yes, "confirm"),
        (Key::Char('n'), ConfirmKey::No, "cancel"),
        (Key::Char('N'), ConfirmKey::No, "cancel"),
        (Key::Esc, ConfirmKey::No, "cancel"),
    ];
    r
}

/// What a key of the confirmation dialog does.
pub fn confirm_key(code: KeyCode) -> (r: Option<ConfirmKey>)
    ensures
        r == confirm_of(code),
{
    let t: Vec<(Key, ConfirmKey, &'static str)> = confirm_keys();
    let mut i: usize = 0;
    while i < t.len()
        invariant
            i <= t@.len() == 5,
            t@ == seq![
                (Key::Char('y'), ConfirmKey::Yes, "confirm"),
                (Key::Char('Y'), ConfirmKey::Yes, "confirm"),
                (Key::Char('n'), ConfirmKey::No, "cancel"),
                (Key::Char('N'), ConfirmKey::No, "cancel"),
                (Key::Esc, ConfirmKey::No, "cancel"),
            ],
            forall|k: int| 0 <= k < i ==> code != code_of((#[trigger] t@[k]).0),
        decreases t@.len() - i,
    {
        if t[i].0.matches(code) {
            return Some(t[i].1);
        }
        i += 1;
    }
    assert(code != code_of(t@[0].0) && code != code_of(t@[1].0) && code != code_of(t@[2].0) && code != code_of(
        t@[3].0,
    ) && code != code_of(t@[4].0));
    None
}

/// Where a key of the panes works.
#[derive(Clone, Copy, Debug, PartialEq, Eq, Structural)]
pub enum Gate {
    Any,
    On(Pane),
}

/// What a key of the panes does.
#[derive(Clone, Copy, Debug, PartialEq, Eq, Structural)]
pub enum PaneAction {
    Quit,
    Detach,
    MoveDown,
    MoveUp,
    NextPane,
    Open,
    ApplyHunk,
    DiscardHunk,
    ApplyFile,
    DiscardFile,
    ApplyAll,
    DiscardAll,
    ConfirmKill,
    ConfirmDissolve,
    NewRule,
    DeleteRule,
    StartRename,
    ToggleFilter,
    Refresh,
    ActionMenu,
    ToggleTree,
    ToggleRunningOnly,
    ToggleProcRunning,
    ToggleEdgeRunning,
    ToggleMark,
    RangeMark,
}

/// A key of the panes.
#[derive(Clone, Copy, Debug)]
pub struct ActionKey {
    pub key: Key,
    pub gate: Gate,
    pub action: PaneAction,
    pub help: Option<&'static str>,
}

/// A key of the panes.
pub struct ActionKeyV {
    pub key: Key,
    pub gate: Gate,
    pub action: PaneAction,
    pub help: Option<Seq<char>>,
}

impl ActionKey {
    pub open spec fn view(&self) -> ActionKeyV {
        ActionKeyV {
            key: self.key,
            gate: self.gate,
            action: self.action,
            help: match self.help {
                Some(h) => Some(h@),
                None => None,
            },
        }
    }
}

pub open spec fn action_row(key: Key, gate: Gate, action: PaneAction, help: Option<Seq<char>>) -> ActionKeyV {
    ActionKeyV { key, gate, action, help }
}

pub open spec fn action_keys_v(v: Seq<ActionKey>) -> Seq<ActionKeyV> {
    v.map_values(|k: ActionKey| k@)
}

/// The keys of the panes. The first that fits counts: one for a pane stands before the one for
/// all of them.
pub open spec fn action_table() -> Seq<ActionKeyV> {
    seq![
        action_row(Key::Char('q'), Gate::Any, PaneAction::Quit, Some("quit (stops the engine)"@)),
        action_row(Key::Char('j'), Gate::Any, PaneAction::MoveDown, None),
        action_row(Key::Char('k'), Gate::Any, PaneAction::MoveUp, None),
        action_row(Key::Tab, Gate::Any, PaneAction::NextPane, None),
        action_row(Key::Enter, Gate::Any, PaneAction::Open, None),
        action_row(Key::Char('m'), Gate::Any, PaneAction::ActionMenu, Some("actions popup for the selected row"@)),
        action_row(Key::Char('a'), Gate::On(Pane::Hunks), PaneAction::ApplyHunk, None),
        action_row(Key::Char('x'), Gate::On(Pane::Hunks), PaneAction::DiscardHunk, None),
        action_row(Key::Char('d'), Gate::On(Pane::Hunks), PaneAction::DiscardHunk, None),
        action_row(Key::Char(' '), Gate::Any, PaneAction::ToggleMark, Some("select/unselect row (Boxes/Changes) for batch a/x/D"@)),
        action_row(Key::Char('['), Gate::Any, PaneAction::RangeMark, Some("select range: anchor (Space) → cursor"@)),
        action_row(Key::Char(']'), Gate::Any, PaneAction::RangeMark, None),
        action_row(Key::Char('a'), Gate::Any, PaneAction::ApplyFile, Some("apply selected change / whole box (or all selected)"@)),
        action_row(Key::Char('x'), Gate::Any, PaneAction::DiscardFile, Some("discard selected change / whole box"@)),
        action_row(Key::Char('A'), Gate::Any, PaneAction::ApplyAll, Some("apply ALL the box's changes"@)),
        action_row(Key::Char('X'), Gate::Any, PaneAction::DiscardAll, Some("discard ALL the box's changes"@)),
        action_row(Key::Char('K'), Gate::Any, PaneAction::ConfirmKill, Some("kill box (SIGTERM, y/n)"@)),
        action_row(Key::Char('D'), Gate::Any, PaneAction::ConfirmDissolve, Some("delete box: finalize changes by file-rules, keep child boxes (y/n)"@)),
        action_row(Key::Char('t'), Gate::On(Pane::Pipelines), PaneAction::ToggleTree, Some("toggle tree / flat chronological (on Pipes)"@)),
        action_row(Key::Char('f'), Gate::On(Pane::Pipelines), PaneAction::ToggleRunningOnly, Some("toggle running-only (on Pipes)"@)),
        action_row(Key::Char('f'), Gate::On(Pane::Processes), PaneAction::ToggleProcRunning, Some("toggle running-only (on Procs)"@)),
        action_row(Key::Char('f'), Gate::On(Pane::BuildEdges), PaneAction::ToggleEdgeRunning, Some("toggle running-only (on Targets)"@)),
        action_row(Key::Char('n'), Gate::On(Pane::Rules), PaneAction::NewRule, Some("new rule (on Rules)"@)),
        action_row(Key::Char('d'), Gate::On(Pane::Rules), PaneAction::DeleteRule, Some("delete rule (on Rules)"@)),
        action_row(Key::Char('d'), Gate::Any, PaneAction::Detach, Some("detach (leaves the engine running)"@)),
        action_row(Key::Char('/'), Gate::Any, PaneAction::ToggleFilter, Some("filter the active pane"@)),
        action_row(Key::Char('r'), Gate::Any, PaneAction::StartRename, Some("rename box"@)),
        action_row(Key::Char('R'), Gate::Any, PaneAction::Refresh, Some("refresh"@)),
    ]
}

/// The keys of the panes.
pub fn pane_action_keys() -> (r: Vec<ActionKey>)
    ensures
        action_keys_v(r@) == action_table(),
{
    let r: Vec<ActionKey> = vec![
        ActionKey { key: Key::Char('q'), gate: Gate::Any, action: PaneAction::Quit, help: Some("quit (stops the engine)") },
        ActionKey { key: Key::Char('j'), gate: Gate::Any, action: PaneAction::MoveDown, help: None },
        ActionKey { key: Key::Char('k'), gate: Gate::Any, action: PaneAction::MoveUp, help: None },
        ActionKey { key: Key::Tab, gate: Gate::Any, action: PaneAction::NextPane, help: None },
        ActionKey { key: Key::Enter, gate: Gate::Any, action: PaneAction::Open, help: None },
        ActionKey { key: Key::Char('m'), gate: Gate::Any, action: PaneAction::ActionMenu, help: Some("actions popup for the selected row") },
        ActionKey { key: Key::Char('a'), gate: Gate::On(Pane::Hunks), action: PaneAction::ApplyHunk, help: None },
        ActionKey { key: Key::Char('x'), gate: Gate::On(Pane::Hunks), action: PaneAction::DiscardHunk, help: None },
        ActionKey { key: Key::Char('d'), gate: Gate::On(Pane::Hunks), action: PaneAction::DiscardHunk, help: None },
        ActionKey { key: Key::Char(' '), gate: Gate::Any, action: PaneAction::ToggleMark, help: Some("select/unselect row (Boxes/Changes) for batch a/x/D") },
        ActionKey { key: Key::Char('['), gate: Gate::Any, action: PaneAction::RangeMark, help: Some("select range: anchor (Space) → cursor") },
        ActionKey { key: Key::Char(']'), gate: Gate::Any, action: PaneAction::RangeMark, help: None },
        ActionKey { key: Key::Char('a'), gate: Gate::Any, action: PaneAction::ApplyFile, help: Some("apply selected change / whole box (or all selected)") },
        ActionKey { key: Key::Char('x'), gate: Gate::Any, action: PaneAction::DiscardFile, help: Some("discard selected change / whole box") },
        ActionKey { key: Key::Char('A'), gate: Gate::Any, action: PaneAction::ApplyAll, help: Some("apply ALL the box's changes") },
        ActionKey { key: Key::Char('X'), gate: Gate::Any, action: PaneAction::DiscardAll, help: Some("discard ALL the box's changes") },
        ActionKey { key: Key::Char('K'), gate: Gate::Any, action: PaneAction::ConfirmKill, help: Some("kill box (SIGTERM, y/n)") },
        ActionKey { key: Key::Char('D'), gate: Gate::Any, action: PaneAction::ConfirmDissolve, help: Some("delete box: finalize changes by file-rules, keep child boxes (y/n)") },
        ActionKey { key: Key::Char('t'), gate: Gate::On(Pane::Pipelines), action: PaneAction::ToggleTree, help: Some("toggle tree / flat chronological (on Pipes)") },
        ActionKey { key: Key::Char('f'), gate: Gate::On(Pane::Pipelines), action: PaneAction::ToggleRunningOnly, help: Some("toggle running-only (on Pipes)") },
        ActionKey { key: Key::Char('f'), gate: Gate::On(Pane::Processes), action: PaneAction::ToggleProcRunning, help: Some("toggle running-only (on Procs)") },
        ActionKey { key: Key::Char('f'), gate: Gate::On(Pane::BuildEdges), action: PaneAction::ToggleEdgeRunning, help: Some("toggle running-only (on Targets)") },
        ActionKey { key: Key::Char('n'), gate: Gate::On(Pane::Rules), action: PaneAction::NewRule, help: Some("new rule (on Rules)") },
        ActionKey { key: Key::Char('d'), gate: Gate::On(Pane::Rules), action: PaneAction::DeleteRule, help: Some("delete rule (on Rules)") },
        ActionKey { key: Key::Char('d'), gate: Gate::Any, action: PaneAction::Detach, help: Some("detach (leaves the engine running)") },
        ActionKey { key: Key::Char('/'), gate: Gate::Any, action: PaneAction::ToggleFilter, help: Some("filter the active pane") },
        ActionKey { key: Key::Char('r'), gate: Gate::Any, action: PaneAction::StartRename, help: Some("rename box") },
        ActionKey { key: Key::Char('R'), gate: Gate::Any, action: PaneAction::Refresh, help: Some("refresh") },
    ];
    assert(action_keys_v(r@) =~= action_table());
    r
}

/// A key works on a pane.
pub open spec fn gate_open(g: Gate, focus: Pane) -> bool {
    match g {
        Gate::Any => true,
        Gate::On(p) => p == focus,
    }
}

/// What a key does on a pane, by the rows of a table from `i` on.
pub open spec fn action_from(t: Seq<ActionKeyV>, i: int, code: KeyCode, focus: Pane) -> Option<PaneAction>
    decreases t.len() - i,
{
    if i < 0 || i >= t.len() {
        None
    } else if code == code_of(t[i].key) && gate_open(t[i].gate, focus) {
        Some(t[i].action)
    } else {
        action_from(t, i + 1, code, focus)
    }
}

/// What a key does on a pane.
pub open spec fn action_of(code: KeyCode, focus: Pane) -> Option<PaneAction> {
    action_from(action_table(), 0, code, focus)
}

/// Looks up what a key does on a pane.
pub fn pane_action(code: KeyCode, focus: Pane) -> (r: Option<PaneAction>)
    ensures
        r == action_of(code, focus),
{
    let t: Vec<ActionKey> = pane_action_keys();
    let ghost v = action_table();
    assert(v.len() == t@.len());
    let mut i: usize = 0;
    while i < t.len()
        invariant
            i <= t@.len() == v.len(),
            v == action_keys_v(t@),
            v == action_table(),
            action_of(code, focus) == action_from(v, i as int, code, focus),
        decreases t@.len() - i,
    {
        assert(v[i as int] == t@[i as int]@);
        let open: bool = match t[i].gate {
            Gate::Any => true,
            Gate::On(p) => p == focus,
        };
        if t[i].key.matches(code) && open {
            return Some(t[i].action);
        }
        i += 1;
    }
    None
}

/// The letter and the name of a pane, and the list whose filter it shows.
pub open spec fn pane_name(p: Pane) -> (char, Seq<char>, FilterView) {
    match p {
        Pane::Sessions => ('b', "boxes"@, FilterView::Changes),
        Pane::Changes | Pane::Hunks => ('c', "changes"@, FilterView::Changes),
        Pane::Processes => ('p', "procs"@, FilterView::Procs),
        Pane::Outputs => ('o', "outputs"@, FilterView::Outputs),
        Pane::Pipelines => ('l', "pipes"@, FilterView::Pipelines),
        Pane::BuildEdges => ('g', "build"@, FilterView::BuildEdges),
        Pane::Rules => ('e', "rules"@, FilterView::Changes),
        Pane::Flows | Pane::Packets => ('f', "flows"@, FilterView::Changes),
        Pane::Help => ('?', "help"@, FilterView::Changes),
        Pane::Pty => ('P', "PTY"@, FilterView::Changes),
        Pane::ApiLogs => ('i', "api"@, FilterView::Changes),
        Pane::Network => ('w', "web"@, FilterView::Changes),
        Pane::Vars => ('v', "vars"@, FilterView::Changes),
    }
}

pub fn view_of_pane(p: Pane) -> (r: Option<(char, &'static str, FilterView)>)
    ensures
        match r {
            Some((key, name, list)) => (key, name@, list) == pane_name(p),
            None => false,
        },
{
    match p {
        Pane::Sessions => Some(('b', "boxes", FilterView::Changes)),
        Pane::Changes | Pane::Hunks => Some(('c', "changes", FilterView::Changes)),
        Pane::Processes => Some(('p', "procs", FilterView::Procs)),
        Pane::Outputs => Some(('o', "outputs", FilterView::Outputs)),
        Pane::Pipelines => Some(('l', "pipes", FilterView::Pipelines)),
        Pane::BuildEdges => Some(('g', "build", FilterView::BuildEdges)),
        Pane::Rules => Some(('e', "rules", FilterView::Changes)),
        Pane::Flows | Pane::Packets => Some(('f', "flows", FilterView::Changes)),
        Pane::Help => Some(('?', "help", FilterView::Changes)),
        Pane::Pty => Some(('P', "PTY", FilterView::Changes)),
        Pane::ApiLogs => Some(('i', "api", FilterView::Changes)),
        Pane::Network => Some(('w', "web", FilterView::Changes)),
        Pane::Vars => Some(('v', "vars", FilterView::Changes)),
    }
}

/// The pane that a letter goes to, by the rows of a table from `i` on.
pub open spec fn pane_from(t: Seq<PaneKeyV>, i: int, k: char) -> Option<Pane>
    decreases t.len() - i,
{
    if i < 0 || i >= t.len() {
        None
    } else if t[i].key == k {
        Some(t[i].pane)
    } else {
        pane_from(t, i + 1, k)
    }
}

/// The pane that a letter goes to.
pub open spec fn pane_of_key(k: char) -> Option<Pane> {
    pane_from(pane_table(), 0, k)
}

/// Looks up the pane that a letter goes to.
pub fn pane_for(k: char) -> (r: Option<Pane>)
    ensures
        r == pane_of_key(k),
{
    let t: Vec<PaneKey> = pane_keys();
    let ghost v = pane_table();
    assert(v.len() == t@.len());
    let mut i: usize = 0;
    while i < t.len()
        invariant
            i <= t@.len() == v.len(),
            v == pane_keys_v(t@),
            v == pane_table(),
            pane_of_key(k) == pane_from(v, i as int, k),
        decreases t@.len() - i,
    {
        assert(v[i as int] == t@[i as int]@);
        if t[i].key == k {
            return Some(t[i].pane);
        }
        i += 1;
    }
    None
}

impl App {
    /// What is told of the box holds rows of that name.
    pub open spec fn tells_of(self, k: Seq<char>) -> bool {
        match self.boxes.summary@.get_arr(k) {
            Some(a) => a.len() > 0,
            None => false,
        }
    }

    /// The letter of a pane stands on the menu bar.
    pub open spec fn chip_shows(self, k: PaneKeyV) -> bool {
        match k.vis {
            VisV::Always => true,
            VisV::Data(name) => self.tells_of(name) || self.ui.focus == k.pane,
            VisV::Pty => self.terms.ptys@.len() > 0,
        }
    }

    /// The letters on the menu bar, with their labels, of the first `n` rows of a table.
    pub open spec fn chips_of(self, t: Seq<PaneKeyV>, n: int) -> Seq<(char, Seq<char>)>
        decreases n,
    {
        if n <= 0 || n > t.len() {
            Seq::empty()
        } else if self.chip_shows(t[n - 1]) {
            self.chips_of(t, n - 1).push((t[n - 1].key, t[n - 1].label))
        } else {
            self.chips_of(t, n - 1)
        }
    }

    /// The letters on the menu bar, with their labels.
    pub open spec fn chips(self) -> Seq<(char, Seq<char>)> {
        self.chips_of(pane_table(), pane_table().len() as int)
    }
}

/// The letters on the menu bar, with their labels.
pub open spec fn chips_v(v: Seq<(char, &'static str)>) -> Seq<(char, Seq<char>)> {
    v.map_values(|c: (char, &'static str)| (c.0, c.1@))
}

pub fn menubar_chips(app: &App) -> (r: Vec<(char, &'static str)>)
    ensures
        chips_v(r@) == app.chips(),
{
    let t: Vec<PaneKey> = pane_keys();
    let ghost v = pane_table();
    assert(v.len() == t@.len());
    let mut out: Vec<(char, &'static str)> = Vec::new();
    let mut i: usize = 0;
    assert(chips_v(out@) =~= app.chips_of(v, 0));
    while i < t.len()
        invariant
            i <= t@.len() == v.len(),
            v == pane_keys_v(t@),
            chips_v(out@) == app.chips_of(v, i as int),
        decreases t@.len() - i,
    {
        assert(v[i as int] == t@[i as int]@);
        let show: bool = match t[i].vis {
            Vis::Always => true,
            Vis::Data(k) => {
                let any: bool = match app.boxes.summary.get_arr(k) {
                    Some(a) => {
                        assert(jvs(a@).len() == a@.len());
                        a.len() > 0
                    },
                    None => false,
                };
                any || app.ui.focus == t[i].pane
            },
            Vis::Pty => app.terms.ptys.len() > 0,
        };
        if show {
            let ghost o = chips_v(out@);
            out.push((t[i].key, t[i].label));
            assert(chips_v(out@) =~= o.push((v[i as int].key, v[i as int].label)));
        }
        i += 1;
    }
    out
}

/// Every letter on the menu bar goes to a pane.
pub proof fn law_every_chip_goes_somewhere(app: App, i: int)
    requires
        0 <= i < app.chips().len(),
    ensures
        pane_of_key(app.chips()[i].0) is Some,
{
    let t = pane_table();
    lemma_chip_is_a_row(app, t, t.len() as int, i);
    let j = choose|j: int| 0 <= j < t.len() && (#[trigger] t[j]).key == app.chips()[i].0;
    lemma_found(t, 0, j, app.chips()[i].0);
}

proof fn lemma_chip_is_a_row(app: App, t: Seq<PaneKeyV>, n: int, i: int)
    requires
        0 <= n <= t.len(),
        0 <= i < app.chips_of(t, n).len(),
    ensures
        exists|j: int| 0 <= j < n && (#[trigger] t[j]).key == app.chips_of(t, n)[i].0,
    decreases n,
{
    if n > 0 {
        let before = app.chips_of(t, n - 1);
        if i < before.len() {
            lemma_chip_is_a_row(app, t, n - 1, i);
        } else {
            assert(t[n - 1].key == app.chips_of(t, n)[i].0);
        }
    }
}

proof fn lemma_found(t: Seq<PaneKeyV>, i: int, j: int, k: char)
    requires
        0 <= i <= j < t.len(),
        t[j].key == k,
    ensures
        pane_from(t, i, k) is Some,
    decreases j - i,
{
    if t[i].key != k {
        lemma_found(t, i + 1, j, k);
    }
}

} // verus!
