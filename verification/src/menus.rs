//! The menus: what can be done with the row at the cursor, where a program can be started, and
//! what each entry does.

use vstd::prelude::*;

use crate::app::{App, Jobs, Launch, NetMode, Step, Terms, Ui};
#[allow(unused_imports)]
use crate::app::{pairs_v, StepV};
use crate::launch::{build_launch, oaita_session_for_box, LaunchTarget, Placement};
#[allow(unused_imports)]
use crate::launch::{agent_session, launch_words, PlacementV, TargetV};
#[allow(unused_imports)]
use crate::lists::fit;
use crate::loads::opt_text;
use crate::shell::shell_join;
#[allow(unused_imports)]
use crate::shell::line_of;
use crate::text::{decimal, ends_with, own, split_lines, starts_with, trim};
#[allow(unused_imports)]
use crate::text::{dec, has_prefix, has_suffix, lines, strs, trimmed};
use crate::types::{Action, ActionItem, ConfirmAction, Modal, Pane};
#[allow(unused_imports)]
use crate::types::{items_v, modal_v, ItemV, ModalV};

verus! {

/// An entry.
pub open spec fn item(label: Seq<char>, hint: Seq<char>, action: Action) -> ItemV {
    ItemV { label, hint, action }
}

fn mk(label: &str, hint: &'static str, action: Action) -> (r: ActionItem)
    ensures
        r@ == item(label@, hint@, action),
{
    ActionItem { label: own(label), hint, action }
}

/// The heading of a menu.
pub open spec fn heading(what: Seq<char>, target: Seq<char>) -> Seq<char> {
    if target.len() == 0 { what } else { what + ": "@ + target }
}

fn heading_of(what: &str, target: &str) -> (r: String)
    ensures
        r@ == heading(what@, target@),
{
    if target.is_empty() {
        own(what)
    } else {
        own(what).concat(": ").concat(target)
    }
}

/// The first loaded image whose name a path ends with, from `i` on.
pub open spec fn image_at(images: Seq<(Seq<char>, Seq<char>)>, path: Seq<char>, i: int) -> Option<Seq<char>>
    decreases images.len() - i,
{
    if i < 0 || i >= images.len() {
        None
    } else if has_suffix(path, images[i].0) {
        Some(images[i].0)
    } else {
        image_at(images, path, i + 1)
    }
}

fn image_of_path(images: &Vec<(String, String)>, path: &str) -> (r: Option<String>)
    ensures
        opt_text(r) == image_at(pairs_v(images@), path@, 0),
{
    let mut i: usize = 0;
    while i < images.len()
        invariant
            i <= images@.len(),
            image_at(pairs_v(images@), path@, 0) == image_at(pairs_v(images@), path@, i as int),
        decreases images@.len() - i,
    {
        assert(pairs_v(images@)[i as int] == (images@[i as int].0@, images@[i as int].1@));
        if ends_with(path, images[i].0.as_str()) {
            return Some(images[i].0.clone());
        }
        i += 1;
    }
    None
}

/// The question before a box is deleted.
pub open spec fn delete_prompt(scope: Seq<char>) -> Seq<char> {
    "Delete "@ + scope
        + "? Changes are finalized by your file-rules (apply-matched → host, the rest discarded); any nested child boxes are kept."@
}

/// The question before a box is killed.
pub open spec fn kill_prompt(scope: Seq<char>) -> Seq<char> {
    "Kill (SIGTERM) "@ + scope + "?"@
}

/// The first line of a file that is neither blank nor a comment, from `i` on.
pub open spec fn command_at(ls: Seq<Seq<char>>, i: int) -> Option<Seq<char>>
    decreases ls.len() - i,
{
    if i < 0 || i >= ls.len() {
        None
    } else {
        let l = trimmed(ls[i]);
        if l.len() > 0 && !has_prefix(l, "#"@) { Some(l) } else { command_at(ls, i + 1) }
    }
}

/// The command that is set up for a new terminal, of the text of its file.
pub fn pty_command_configured(file: &str) -> (r: Option<String>)
    ensures
        opt_text(r) == command_at(lines(file@), 0),
{
    let ls: Vec<String> = split_lines(file);
    let ghost all = lines(file@);
    assert(ls@.len() == strs(ls@).len());
    let mut i: usize = 0;
    while i < ls.len()
        invariant
            i <= ls@.len() == all.len(),
            all == strs(ls@),
            all == lines(file@),
            command_at(all, 0) == command_at(all, i as int),
        decreases ls@.len() - i,
    {
        assert(all[i as int] == ls@[i as int]@);
        let l: String = trim(ls[i].as_str());
        if !l.as_str().is_empty() && !starts_with(l.as_str(), "#") {
            return Some(l);
        }
        i += 1;
    }
    None
}

impl App {
    /// The member of the box at the cursor.
    pub open spec fn box_member(self, k: Seq<char>) -> Option<Seq<char>> {
        crate::app::row_str(self.boxes.sessions@, self.boxes.sel as int, k)
    }

    fn member_of_box(&self, k: &str) -> (r: Option<&str>)
        ensures
            crate::json::opt_chars(r) == self.box_member(k@),
    {
        if self.boxes.sel < self.boxes.sessions.len() {
            self.boxes.sessions[self.boxes.sel].get_str(k)
        } else {
            None
        }
    }

    /// The loaded image that the box at the cursor is.
    pub open spec fn image_here(self) -> Option<Seq<char>> {
        match self.box_member("path"@) {
            Some(p) => image_at(pairs_v(self.boxes.images@), p, 0),
            None => None,
        }
    }

    fn image_of_box(&self) -> (r: Option<String>)
        ensures
            opt_text(r) == self.image_here(),
    {
        match self.member_of_box("path") {
            Some(p) => image_of_path(&self.boxes.images, p),
            None => None,
        }
    }

    /// The rule at the cursor.
    pub open spec fn rule_here(self) -> Seq<char> {
        if self.side.sel_rule < self.side.rules@.len() {
            self.side.rules@[self.side.sel_rule as int]@
        } else {
            Seq::empty()
        }
    }

    fn cur_rule(&self) -> (r: String)
        ensures
            r@ == self.rule_here(),
    {
        if self.side.sel_rule < self.side.rules.len() {
            self.side.rules[self.side.sel_rule].clone()
        } else {
            let s: String = String::new();
            assert(s@ =~= Seq::<char>::empty());
            s
        }
    }

    /// The menu of the boxes.
    pub open spec fn box_menu(self) -> (Seq<char>, Seq<ItemV>) {
        let path = match self.box_member("path"@) {
            Some(p) => p,
            None => Seq::empty(),
        };
        let base = seq![
            item("Open changes view"@, "Enter"@, Action::OpenSelection),
            item("Apply ALL changes to host"@, "a"@, Action::ApplyBox),
            item("Delete box (finalize by rules, keep child boxes)"@, "D"@, Action::DissolveBox),
            item("Discard ALL changes"@, "x"@, Action::DiscardBox),
            item("Kill (SIGTERM)"@, "K"@, Action::KillBox),
            item("Rename box"@, "r/F6"@, Action::StartRename),
            item("New box from image…"@, "F7"@, Action::NewFromImage),
            item("oaita agent session on this box…"@, ""@, Action::OaitaOnSelectedBox),
        ];
        (
            heading("Box"@, path),
            if image_at(pairs_v(self.boxes.images@), path, 0) is Some {
                base.push(item("Container shell on this image"@, ""@, Action::RunSelectedImage))
            } else {
                base
            },
        )
    }

    /// The menu of the pane, where it has one.
    pub open spec fn menu(self) -> Option<(Seq<char>, Seq<ItemV>)> {
        match self.ui.focus {
            Pane::Sessions => Some(self.box_menu()),
            Pane::Changes => Some(
                (
                    heading(
                        "Change"@,
                        match self.change_path() {
                            Some(p) => p,
                            None => Seq::empty(),
                        },
                    ),
                    seq![
                        item("Open diff"@, "Enter"@, Action::OpenSelection),
                        item("Apply this file"@, "a/F5"@, Action::ApplyFile),
                        item("Discard this file"@, "x/F8"@, Action::DiscardFile),
                    ],
                ),
            ),
            Pane::Hunks => Some(
                (
                    "Hunk (selected)"@,
                    seq![
                        item("Apply this hunk"@, "a/F5"@, Action::ApplyHunk),
                        item("Discard this hunk"@, "x/F8"@, Action::DiscardHunk),
                    ],
                ),
            ),
            Pane::Rules => Some(
                (
                    heading("Rule"@, self.rule_here()),
                    seq![
                        item("Edit rule"@, "F4"@, Action::EditRule),
                        item("New rule"@, "n/F7"@, Action::NewRule),
                        item("Delete rule"@, "d/F8"@, Action::DeleteRule),
                        item("Move up"@, "Ctrl-↑"@, Action::MoveRuleUp),
                        item("Move down"@, "Ctrl-↓"@, Action::MoveRuleDown),
                    ],
                ),
            ),
            Pane::Pty => Some(
                (
                    "PTY "@ + dec(fit(self.terms.sel + 1) as int) + "/"@ + dec(self.terms.ptys@.len() as int),
                    seq![
                        item("New PTY"@, "F7"@, Action::PtyNew),
                        item("Kill this PTY"@, "F8"@, Action::PtyKill),
                        item("Embed in pane"@, "F11"@, Action::PtyEmbedToggle),
                    ],
                ),
            ),
            Pane::ApiLogs => Some(
                (
                    "API calls"@,
                    seq![
                        item("Open call detail"@, "Enter"@, Action::OpenSelection),
                        item("Configure an external API (base_url / model / key)…"@, ""@, Action::OpenApiConfig),
                        item("Pick a local model (live catalog) & serve it…"@, ""@, Action::OpenModelPicker),
                        item("Set up the default local endpoint (oaita local)"@, ""@, Action::OaitaLocalPty),
                    ],
                ),
            ),
            _ => None,
        }
    }
}

fn box_action_menu(app: &App) -> (r: (String, Vec<ActionItem>))
    ensures
        (r.0@, items_v(r.1@)) == app.box_menu(),
{
    let path: String = match app.member_of_box("path") {
        Some(p) => own(p),
        None => {
            let s: String = String::new();
            assert(s@ =~= Seq::<char>::empty());
            s
        },
    };
    let mut items: Vec<ActionItem> = vec![
        mk("Open changes view", "Enter", Action::OpenSelection),
        mk("Apply ALL changes to host", "a", Action::ApplyBox),
        mk("Delete box (finalize by rules, keep child boxes)", "D", Action::DissolveBox),
        mk("Discard ALL changes", "x", Action::DiscardBox),
        mk("Kill (SIGTERM)", "K", Action::KillBox),
        mk("Rename box", "r/F6", Action::StartRename),
        mk("New box from image…", "F7", Action::NewFromImage),
        mk("oaita agent session on this box…", "", Action::OaitaOnSelectedBox),
    ];
    if image_of_path(&app.boxes.images, path.as_str()).is_some() {
        items.push(mk("Container shell on this image", "", Action::RunSelectedImage));
    }
    assert(items_v(items@) =~= app.box_menu().1);
    (heading_of("Box", path.as_str()), items)
}

/// What an optional menu is.
pub open spec fn menu_v(m: Option<(String, Vec<ActionItem>)>) -> Option<(Seq<char>, Seq<ItemV>)> {
    match m {
        Some((t, v)) => Some((t@, items_v(v@))),
        None => None,
    }
}

/// The menu of the pane, where it has one.
pub fn pane_action_menu(app: &App) -> (r: Option<(String, Vec<ActionItem>)>)
    ensures
        menu_v(r) == app.menu(),
{
    let (title, items): (String, Vec<ActionItem>) = match app.ui.focus {
        Pane::Sessions => box_action_menu(app),
        Pane::Changes => {
            let path: String = match app.cur_change_path() {
                Some(p) => own(p),
                None => {
                    let s: String = String::new();
                    assert(s@ =~= Seq::<char>::empty());
                    s
                },
            };
            (
                heading_of("Change", path.as_str()),
                vec![
                    mk("Open diff", "Enter", Action::OpenSelection),
                    mk("Apply this file", "a/F5", Action::ApplyFile),
                    mk("Discard this file", "x/F8", Action::DiscardFile),
                ],
            )
        },
        Pane::Hunks => (
            own("Hunk (selected)"),
            vec![
                mk("Apply this hunk", "a/F5", Action::ApplyHunk),
                mk("Discard this hunk", "x/F8", Action::DiscardHunk),
            ],
        ),
        Pane::Rules => (
            heading_of("Rule", app.cur_rule().as_str()),
            vec![
                mk("Edit rule", "F4", Action::EditRule),
                mk("New rule", "n/F7", Action::NewRule),
                mk("Delete rule", "d/F8", Action::DeleteRule),
                mk("Move up", "Ctrl-↑", Action::MoveRuleUp),
                mk("Move down", "Ctrl-↓", Action::MoveRuleDown),
            ],
        ),
        Pane::Pty => (
            own("PTY ").concat(decimal(app.terms.sel.saturating_add(1) as u64).as_str()).concat("/").concat(
                decimal(app.terms.ptys.len() as u64).as_str(),
            ),
            vec![
                mk("New PTY", "F7", Action::PtyNew),
                mk("Kill this PTY", "F8", Action::PtyKill),
                mk("Embed in pane", "F11", Action::PtyEmbedToggle),
            ],
        ),
        Pane::ApiLogs => (
            own("API calls"),
            vec![
                mk("Open call detail", "Enter", Action::OpenSelection),
                mk("Configure an external API (base_url / model / key)…", "", Action::OpenApiConfig),
                mk("Pick a local model (live catalog) & serve it…", "", Action::OpenModelPicker),
                mk("Set up the default local endpoint (oaita local)", "", Action::OaitaLocalPty),
            ],
        ),
        _ => {
            return None;
        },
    };
    assert(items_v(items@) =~= (app.menu()->0).1);
    Some((title, items))
}

impl App {
    /// The entries of the launcher.
    pub open spec fn launch_items(self) -> Seq<ItemV> {
        let base = seq![
            item("Shell in a NEW box (captured; sarun run -b)"@, ""@, Action::PtyNewBoxShell),
            item("Container from image… (pick a base image)"@, ""@, Action::NewFromImage),
            item("Browser — carbonyl (container; flows captured)"@, ""@, Action::BrowserCarbonyl),
            item("Host shell — "@ + self.env.shell@ + " (NOT captured)"@, ""@, Action::PtyNewHostShell),
        ];
        base + (if self.image_here() is Some {
            seq![item("Container shell on the SELECTED image box"@, ""@, Action::RunSelectedImage)]
        } else {
            Seq::empty()
        }) + (match self.box_member("name"@) {
            Some(name) => seq![
                item("oaita agent session ON box '"@ + name + "'…"@, ""@, Action::OaitaOnSelectedBox),
            ],
            None => Seq::empty(),
        }) + seq![item("Custom command…"@, ""@, Action::PtyNewCustom)]
    }

    /// What opening the launcher changes. Where `tap` does not work, another network mode is
    /// chosen, once.
    pub open spec fn open_pty_menu_v(self, post: App) -> bool {
        let l = self.jobs.launch;
        let bump = !l.tap_ok && l.net == NetMode::Tap && !l.bumped;
        &&& modal_v(post.ui.modal) == Some(ModalV::Launcher { items: self.launch_items(), sel: 0 })
        &&& post == (App {
            jobs: (Jobs {
                launch: if bump { Launch { net: NetMode::Host, bumped: true, ..l } } else { l },
                ..self.jobs
            }),
            ui: (Ui { modal: post.ui.modal, status: post.ui.status, ..self.ui }),
            ..self
        })
        &&& if bump {
            post.ui.status@
                == "tap networking unavailable here (no CLONE_NEWNET) — network: HOST pre-selected"@
        } else {
            post.ui.status == self.ui.status
        }
    }
}

fn launcher_items(app: &App) -> (r: Vec<ActionItem>)
    ensures
        items_v(r@) == app.launch_items(),
{
    let host: String = own("Host shell — ").concat(app.env.shell.as_str()).concat(" (NOT captured)");
    let mut items: Vec<ActionItem> = vec![
        mk("Shell in a NEW box (captured; sarun run -b)", "", Action::PtyNewBoxShell),
        mk("Container from image… (pick a base image)", "", Action::NewFromImage),
        mk("Browser — carbonyl (container; flows captured)", "", Action::BrowserCarbonyl),
        mk(host.as_str(), "", Action::PtyNewHostShell),
    ];
    if app.image_of_box().is_some() {
        items.push(mk("Container shell on the SELECTED image box", "", Action::RunSelectedImage));
    }
    match app.member_of_box("name") {
        Some(name) => {
            let label: String = own("oaita agent session ON box '").concat(name).concat("'…");
            items.push(mk(label.as_str(), "", Action::OaitaOnSelectedBox));
        },
        None => {},
    }
    items.push(mk("Custom command…", "", Action::PtyNewCustom));
    assert(items_v(items@) =~= app.launch_items());
    items
}

/// Opens the launcher.
pub fn open_pty_menu(app: &mut App)
    ensures
        old(app).open_pty_menu_v(*final(app)),
{
    let items: Vec<ActionItem> = launcher_items(app);
    let l: Launch = app.jobs.launch;
    if !l.tap_ok && l.net == NetMode::Tap && !l.bumped {
        app.jobs.launch.net = NetMode::Host;
        app.jobs.launch.bumped = true;
        app.say("tap networking unavailable here (no CLONE_NEWNET) — network: HOST pre-selected");
    }
    app.ui.modal = Some(Modal::Launcher { items, sel: 0 });
}

impl App {
    /// What opening a dialog changes.
    pub open spec fn asks(self, m: ModalV, post: App) -> bool {
        &&& modal_v(post.ui.modal) == Some(m)
        &&& post == (App { ui: (Ui { modal: post.ui.modal, ..self.ui }), ..self })
    }

    /// What starting a program where a new box is made for it changes.
    pub open spec fn launch_v(self, t: TargetV, p: PlacementV, post: App) -> bool {
        self.open_pty_v(launch_words(t, self.how_v(p)), post)
    }

    /// Starts a program.
    pub(crate) fn launch(&mut self, t: &LaunchTarget, p: Placement)
        ensures
            old(self).launch_v(t@, p@, *final(self)),
    {
        let how: crate::launch::How = self.how(p);
        self.open_pty(build_launch(t, &how));
    }

    /// Asks before boxes are deleted.
    pub(crate) fn ask_dissolve(&mut self)
        ensures
            old(self).asks(
                ModalV::Confirm { prompt: delete_prompt(old(self).scope_text()), action: ConfirmAction::Dissolve },
                *final(self),
            ),
    {
        let prompt: String = own("Delete ").concat(self.box_op_scope_label().as_str()).concat(
            "? Changes are finalized by your file-rules (apply-matched → host, the rest discarded); any nested child boxes are kept.",
        );
        self.ui.modal = Some(Modal::Confirm { prompt, action: ConfirmAction::Dissolve });
    }

    /// Asks before boxes are killed.
    pub(crate) fn ask_kill(&mut self)
        ensures
            old(self).asks(
                ModalV::Confirm { prompt: kill_prompt(old(self).scope_text()), action: ConfirmAction::Kill },
                *final(self),
            ),
    {
        let prompt: String = own("Kill (SIGTERM) ").concat(self.box_op_scope_label().as_str()).concat("?");
        self.ui.modal = Some(Modal::Confirm { prompt, action: ConfirmAction::Kill });
    }

    /// Opens the form for the rule at the cursor.
    pub(crate) fn edit_rule(&mut self)
        ensures
            old(self).asks(
                ModalV::RuleForm { buf: old(self).rule_here(), editing: Some(old(self).side.sel_rule) },
                *final(self),
            ),
    {
        let buf: String = self.cur_rule();
        self.ui.modal = Some(Modal::RuleForm { buf, editing: Some(self.side.sel_rule) });
    }

    /// Opens the form for a new rule.
    pub(crate) fn new_rule(&mut self)
        ensures
            old(self).asks(ModalV::RuleForm { buf: Seq::empty(), editing: None }, *final(self)),
    {
        let buf: String = String::new();
        assert(buf@ =~= Seq::<char>::empty());
        self.ui.modal = Some(Modal::RuleForm { buf, editing: None });
    }

    /// What beginning to rename the box changes.
    pub open spec fn start_rename_v(self, post: App) -> bool {
        &&& opt_text(post.ui.renaming) == Some(Seq::<char>::empty())
        &&& post == (App { ui: (Ui { renaming: post.ui.renaming, ..self.ui }), ..self })
    }

    pub(crate) fn start_rename(&mut self)
        ensures
            old(self).start_rename_v(*final(self)),
    {
        let s: String = String::new();
        assert(s@ =~= Seq::<char>::empty());
        self.ui.renaming = Some(s);
    }

    /// What putting the terminal beside the boxes changes.
    pub open spec fn shrink_v(self, post: App) -> bool {
        (App {
            terms: (Terms { in_right: true, ..self.terms }),
            ui: (Ui { focus: Pane::Sessions, right_focused: true, right_scroll: 0, ..self.ui }),
            ..self.without_lens()
        }).planned(self.lens_steps(), post)
    }

    /// Puts the terminal beside the boxes.
    pub(crate) fn shrink_pty(&mut self)
        ensures
            old(self).shrink_v(*final(self)),
    {
        self.drop_lens();
        self.ui.focus = Pane::Sessions;
        self.terms.in_right = true;
        self.ui.right_focused = true;
        self.ui.right_scroll = 0;
    }

    /// What putting the terminal beside a list, or away from there, changes. One that has the screen
    /// to itself is put beside the boxes.
    pub open spec fn embed_v(self, post: App) -> bool {
        if self.terms.ptys@.len() == 0 {
            self.says(post, "no PTY to split — F2 opens one"@)
        } else if self.ui.focus == Pane::Pty {
            self.shrink_v(post)
        } else {
            let on = !self.terms.in_right;
            post == (App {
                terms: (Terms { in_right: on, ..self.terms }),
                ui: (Ui { right_focused: on, right_scroll: 0, ..self.ui }),
                ..self
            })
        }
    }

    pub(crate) fn toggle_embed(&mut self)
        ensures
            old(self).embed_v(*final(self)),
    {
        if self.terms.ptys.len() == 0 {
            self.say("no PTY to split — F2 opens one");
        } else if self.ui.focus == Pane::Pty {
            self.shrink_pty();
        } else {
            self.terms.in_right = !self.terms.in_right;
            self.ui.right_focused = self.terms.in_right;
            self.ui.right_scroll = 0;
        }
    }

    /// The command that serves a model on this host.
    pub open spec fn local_model(self, url: Option<Seq<char>>) -> Seq<Seq<char>> {
        let base = seq![self.env.exe@, "oaita"@, "local"@];
        match url {
            Some(u) => base + seq!["--model-url"@, u],
            None => base,
        }
    }

    pub(crate) fn local_model_argv(&self, url: Option<String>) -> (r: Vec<String>)
        ensures
            strs(r@) == self.local_model(opt_text(url)),
    {
        let mut v: Vec<String> = vec![self.env.exe.clone(), own("oaita"), own("local")];
        match url {
            Some(u) => {
                v.push(own("--model-url"));
                v.push(u);
                assert(strs(v@) =~= self.local_model(Some(u@)));
            },
            None => {
                assert(strs(v@) =~= self.local_model(None));
            },
        }
        v
    }

    /// What an entry of a menu changes.
    pub open spec fn action_v(self, a: Action, post: App) -> bool {
        match a {
            Action::OpenSelection => self.open_v(post),
            Action::ApplyFile | Action::ApplyBox => self.review_v(false, post),
            Action::DiscardFile | Action::DiscardBox => self.review_v(true, post),
            Action::ApplyHunk => self.take_hunk_v(false, post),
            Action::DiscardHunk => self.take_hunk_v(true, post),
            Action::DissolveBox => self.asks(
                ModalV::Confirm { prompt: delete_prompt(self.scope_text()), action: ConfirmAction::Dissolve },
                post,
            ),
            Action::KillBox => self.asks(
                ModalV::Confirm { prompt: kill_prompt(self.scope_text()), action: ConfirmAction::Kill },
                post,
            ),
            Action::StartRename => self.start_rename_v(post),
            Action::EditRule => self.asks(
                ModalV::RuleForm { buf: self.rule_here(), editing: Some(self.side.sel_rule) },
                post,
            ),
            Action::NewRule => self.asks(ModalV::RuleForm { buf: Seq::empty(), editing: None }, post),
            Action::DeleteRule => self.delete_rule_v(post),
            Action::MoveRuleUp => self.move_rule_v(false, post),
            Action::MoveRuleDown => self.move_rule_v(true, post),
            Action::PtyNew => self.open_pty_menu_v(post),
            Action::PtyNewBoxShell => self.launch_v(TargetV::Shell, PlacementV::New, post),
            Action::PtyNewHostShell => self.launch_v(
                TargetV::HostShell(self.env.shell@),
                PlacementV::New,
                post,
            ),
            Action::PtyNewCustom => self.planned(seq![StepV::ReadPtyCommand], post),
            Action::NewFromImage => self.planned(seq![StepV::ReadImageConf], post),
            Action::RunSelectedImage => match self.image_here() {
                Some(name) => self.launch_v(TargetV::Image(name), PlacementV::New, post),
                None => self.says(post, "selected box is not a loaded image"@),
            },
            Action::BrowserCarbonyl => self.planned(seq![StepV::ReadBrowserKey], post),
            Action::OaitaLocalPty => self.open_pty_v(self.local_model(None), post),
            Action::OpenModelPicker => self.open_model_picker_v(post),
            Action::OpenApiConfig => self.planned(seq![StepV::ReadApiConfig], post),
            Action::OaitaOnSelectedBox => match self.box_member("name"@) {
                Some(n) => self.asks(
                    ModalV::OaitaTask { box_name: n, session: agent_session(n), buf: Seq::empty() },
                    post,
                ),
                None => self.says(post, "no box selected"@),
            },
            Action::PtyKill => self.pty_kill_v(post),
            Action::PtyEmbedToggle => self.embed_v(post),
        }
    }

    /// Asks for the task of an agent on the box at the cursor.
    fn ask_task(&mut self)
        ensures
            match old(self).box_member("name"@) {
                Some(n) => old(self).asks(
                    ModalV::OaitaTask { box_name: n, session: agent_session(n), buf: Seq::empty() },
                    *final(self),
                ),
                None => old(self).says(*final(self), "no box selected"@),
            },
    {
        let name: Option<String> = match self.member_of_box("name") {
            Some(n) => Some(own(n)),
            None => None,
        };
        match name {
            Some(n) => {
                let buf: String = String::new();
                assert(buf@ =~= Seq::<char>::empty());
                let session: String = oaita_session_for_box(n.as_str());
                self.ui.modal = Some(Modal::OaitaTask { box_name: n, session, buf });
            },
            None => {
                self.say("no box selected");
            },
        }
    }

    /// Starts a container on the image that the box at the cursor is.
    fn run_selected_image(&mut self)
        ensures
            match old(self).image_here() {
                Some(name) => old(self).launch_v(TargetV::Image(name), PlacementV::New, *final(self)),
                None => old(self).says(*final(self), "selected box is not a loaded image"@),
            },
    {
        match self.image_of_box() {
            Some(name) => {
                self.launch(&LaunchTarget::Image(name), Placement::New);
            },
            None => {
                self.say("selected box is not a loaded image");
            },
        }
    }
}

/// Does what an entry of a menu says.
pub fn run_action(app: &mut App, a: Action)
    ensures
        old(app).action_v(a, *final(app)),
{
    match a {
        Action::OpenSelection => app.open(),
        Action::ApplyFile | Action::ApplyBox => app.apply(),
        Action::DiscardFile | Action::DiscardBox => app.discard(),
        Action::ApplyHunk => app.apply_hunk(),
        Action::DiscardHunk => app.discard_hunk(),
        Action::DissolveBox => app.ask_dissolve(),
        Action::KillBox => app.ask_kill(),
        Action::StartRename => app.start_rename(),
        Action::EditRule => app.edit_rule(),
        Action::NewRule => app.new_rule(),
        Action::DeleteRule => app.delete_rule(),
        Action::MoveRuleUp => app.move_rule(false),
        Action::MoveRuleDown => app.move_rule(true),
        Action::PtyNew => open_pty_menu(app),
        Action::PtyNewBoxShell => app.launch(&LaunchTarget::Shell, Placement::New),
        Action::PtyNewHostShell => {
            let shell: String = app.env.shell.clone();
            app.launch(&LaunchTarget::HostShell { shell }, Placement::New);
        },
        Action::PtyNewCustom => app.first(Step::ReadPtyCommand),
        Action::NewFromImage => app.open_image_picker(),
        Action::RunSelectedImage => app.run_selected_image(),
        Action::BrowserCarbonyl => app.first(Step::ReadBrowserKey),
        Action::OaitaLocalPty => {
            let argv: Vec<String> = app.local_model_argv(None);
            app.open_pty(argv);
        },
        Action::OpenModelPicker => app.open_model_picker(),
        Action::OpenApiConfig => app.open_api_config(),
        Action::OaitaOnSelectedBox => app.ask_task(),
        Action::PtyKill => app.pty_kill(),
        Action::PtyEmbedToggle => app.toggle_embed(),
    }
}

impl App {
    /// The command that a new terminal is offered: the one that is set up, or a shell in a new
    /// box, to which a command can be added.
    pub open spec fn offered_command(self, file: Option<Seq<char>>) -> Seq<char> {
        let set_up = match file {
            Some(f) => command_at(lines(f), 0),
            None => None,
        };
        match set_up {
            Some(c) => c,
            None => line_of(launch_words(TargetV::Command(Seq::empty()), self.how_v(PlacementV::New))) + " "@,
        }
    }

    /// Takes in the file of the command for a new terminal, and opens the prompt with it.
    pub fn pty_command_read(&mut self, file: Option<String>)
        ensures
            old(self).asks(ModalV::PtyCmd { buf: old(self).offered_command(opt_text(file)) }, *final(self)),
    {
        let set_up: Option<String> = match file {
            Some(f) => pty_command_configured(f.as_str()),
            None => None,
        };
        let buf: String = match set_up {
            Some(c) => c,
            None => {
                let empty: Vec<String> = Vec::new();
                assert(strs(empty@) =~= Seq::<Seq<char>>::empty());
                let how: crate::launch::How = self.how(Placement::New);
                let argv: Vec<String> = build_launch(&LaunchTarget::Command(empty), &how);
                shell_join(&argv).concat(" ")
            },
        };
        self.ui.modal = Some(Modal::PtyCmd { buf });
    }

    /// Takes in the key that a browser is to trust, and asks for an address; without the key
    /// there is no browser.
    pub fn browser_key_read(&mut self, r: Result<String, String>)
        ensures
            match r {
                Ok(spki) => old(self).asks(ModalV::BrowserUrl { buf: "https://"@, spki: spki@ }, *final(self)),
                Err(e) => old(self).says(
                    *final(self),
                    "browser: MITM CA unavailable ("@ + e@ + "); cannot launch"@,
                ),
            },
    {
        match r {
            Ok(spki) => {
                self.ui.modal = Some(Modal::BrowserUrl { buf: own("https://"), spki });
            },
            Err(e) => {
                let s: String = own("browser: MITM CA unavailable (").concat(e.as_str()).concat("); cannot launch");
                self.say(s.as_str());
            },
        }
    }
}

/// The launcher changes the network mode once at most: after that the chosen mode is kept.
pub proof fn law_network_mode_is_changed_once(a: App, b: App)
    requires
        a.open_pty_menu_v(b),
    ensures
        b.jobs.launch.net != a.jobs.launch.net ==> !a.jobs.launch.bumped && b.jobs.launch.bumped,
        a.jobs.launch.bumped || a.jobs.launch.tap_ok ==> b.jobs.launch == a.jobs.launch,
{
}

} // verus!
