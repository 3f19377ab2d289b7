//! What the keys do: the dialog gets them first, then the menu bar, the new name that is being
//! typed, the terminal, the function keys, the question of the engine, and at last the pane.

use vstd::prelude::*;

use crate::app::{App, Op, Step, Terms, Ui};
#[allow(unused_imports)]
use crate::app::StepV;
use crate::keys::{menubar_chips, pane_action, pane_for, view_of_pane, KeyCode, Mods, PaneAction};
#[allow(unused_imports)]
use crate::keys::{action_of, chips_v, pane_name, pane_of_key};
#[allow(unused_imports)]
use crate::lists::{fit, minus};
use crate::loads::{opt_text, Verdict};
use crate::menus::{open_pty_menu, pane_action_menu};
#[allow(unused_imports)]
use crate::menus::{delete_prompt, kill_prompt};
use crate::modals::handle_modal_key;
use crate::terms::key_to_pty_bytes;
#[allow(unused_imports)]
use crate::terms::key_bytes;
use crate::text::{decimal, own};
#[allow(unused_imports)]
use crate::text::dec;
use crate::types::{ConfirmAction, Modal, Pane, PtyInfo};
#[allow(unused_imports)]
use crate::types::{modal_v, ModalV};

verus! {

impl App {
    /// What opening the menu of the pane changes.
    pub open spec fn action_menu_v(self, post: App) -> bool {
        match self.menu() {
            Some((title, items)) => self.asks(ModalV::ActionMenu { title, items, sel: 0 }, post),
            None => self.says(post, "no actions for this row yet"@),
        }
    }

    fn open_action_menu(&mut self)
        ensures
            old(self).action_menu_v(*final(self)),
    {
        match pane_action_menu(self) {
            Some((title, items)) => {
                self.ui.modal = Some(Modal::ActionMenu { title, items, sel: 0 });
            },
            None => {
                self.say("no actions for this row yet");
            },
        }
    }

    /// The steps of a refresh.
    pub open spec fn refresh_steps() -> Seq<StepV> {
        seq![
            StepV::Op(Op::RefreshSessions),
            StepV::Op(Op::LoadChanges),
            StepV::Op(Op::LoadRules),
            StepV::Say("refreshed"@),
        ]
    }

    fn refresh(&mut self)
        ensures
            old(self).planned(App::refresh_steps(), *final(self)),
    {
        let ghost orig = *self;
        self.first_say("refreshed");
        self.first_op(Op::LoadRules);
        self.first_op(Op::LoadChanges);
        self.first_op(Op::RefreshSessions);
        assert(self.plan() =~= App::refresh_steps() + orig.plan());
    }

    /// The state in which the client ends.
    pub open spec fn quitting(self) -> App {
        App { ui: (Ui { should_quit: true, ..self.ui }), ..self }
    }

    fn quit(&mut self)
        ensures
            old(self).quitting().planned(seq![StepV::Shutdown], *final(self)),
    {
        self.ui.should_quit = true;
        self.first(Step::Shutdown);
    }

    /// What an action of the panes changes.
    pub open spec fn pane_action_v(self, a: PaneAction, post: App) -> bool {
        match a {
            PaneAction::Quit => self.quitting().planned(seq![StepV::Shutdown], post),
            PaneAction::Detach => post == self.quitting(),
            PaneAction::MoveDown => self.move_v(true, post),
            PaneAction::MoveUp => self.move_v(false, post),
            PaneAction::NextPane => post == self.next_pane_v(),
            PaneAction::ToggleTree => self.toggle_pipeline_tree_v(post),
            PaneAction::ToggleRunningOnly => self.toggle_pipeline_running_only_v(post),
            PaneAction::ToggleProcRunning => self.toggle_proc_running_only_v(post),
            PaneAction::ToggleEdgeRunning => self.toggle_edge_running_only_v(post),
            PaneAction::Open => if self.ui.focus == Pane::Rules {
                self.asks(ModalV::RuleForm { buf: self.rule_here(), editing: Some(self.side.sel_rule) }, post)
            } else {
                self.open_v(post)
            },
            PaneAction::ToggleMark => self.toggle_mark_v(post),
            PaneAction::RangeMark => self.range_mark_v(post),
            PaneAction::ApplyHunk => self.take_hunk_v(false, post),
            PaneAction::DiscardHunk => self.take_hunk_v(true, post),
            PaneAction::ApplyFile => self.review_v(false, post),
            PaneAction::DiscardFile => self.review_v(true, post),
            PaneAction::ApplyAll => self.planned(self.all_steps(false), post),
            PaneAction::DiscardAll => self.planned(self.all_steps(true), post),
            PaneAction::ConfirmKill => self.asks(
                ModalV::Confirm { prompt: kill_prompt(self.scope_text()), action: ConfirmAction::Kill },
                post,
            ),
            PaneAction::ConfirmDissolve => self.asks(
                ModalV::Confirm { prompt: delete_prompt(self.scope_text()), action: ConfirmAction::Dissolve },
                post,
            ),
            PaneAction::NewRule => self.asks(ModalV::RuleForm { buf: Seq::empty(), editing: None }, post),
            PaneAction::DeleteRule => self.delete_rule_v(post),
            PaneAction::StartRename => self.start_rename_v(post),
            PaneAction::ToggleFilter => self.toggle_filter_v(post),
            PaneAction::Refresh => self.planned(App::refresh_steps(), post),
            PaneAction::ActionMenu => self.action_menu_v(post),
        }
    }
}

/// Does an action of the panes.
pub fn run_pane_action(app: &mut App, action: PaneAction)
    ensures
        old(app).pane_action_v(action, *final(app)),
{
    match action {
        PaneAction::Quit => app.quit(),
        PaneAction::Detach => {
            app.ui.should_quit = true;
        },
        PaneAction::MoveDown => app.move_down(),
        PaneAction::MoveUp => app.move_up(),
        PaneAction::NextPane => app.next_pane(),
        PaneAction::ToggleTree => app.toggle_pipeline_tree(),
        PaneAction::ToggleRunningOnly => app.toggle_pipeline_running_only(),
        PaneAction::ToggleProcRunning => app.toggle_proc_running_only(),
        PaneAction::ToggleEdgeRunning => app.toggle_edge_running_only(),
        PaneAction::Open => {
            if app.ui.focus == Pane::Rules {
                app.edit_rule();
            } else {
                app.open();
            }
        },
        PaneAction::ToggleMark => app.toggle_mark(),
        PaneAction::RangeMark => app.range_mark(),
        PaneAction::ApplyHunk => app.apply_hunk(),
        PaneAction::DiscardHunk => app.discard_hunk(),
        PaneAction::ApplyFile => app.apply(),
        PaneAction::DiscardFile => app.discard(),
        PaneAction::ApplyAll => app.apply_all(),
        PaneAction::DiscardAll => app.discard_all(),
        PaneAction::ConfirmKill => app.ask_kill(),
        PaneAction::ConfirmDissolve => app.ask_dissolve(),
        PaneAction::NewRule => app.new_rule(),
        PaneAction::DeleteRule => app.delete_rule(),
        PaneAction::StartRename => app.start_rename(),
        PaneAction::ToggleFilter => app.toggle_filter(),
        PaneAction::Refresh => app.refresh(),
        PaneAction::ActionMenu => app.open_action_menu(),
    }
}

impl App {
    /// What a key of the panes changes.
    pub open spec fn pane_key_v(self, code: KeyCode, post: App) -> bool {
        match action_of(code, self.ui.focus) {
            Some(a) => self.pane_action_v(a, post),
            None => post == self,
        }
    }
}

/// Does what a key says on the pane; tells whether it says anything.
pub fn dispatch_pane_key(app: &mut App, code: KeyCode) -> (r: bool)
    ensures
        r == (action_of(code, old(app).ui.focus) is Some),
        old(app).pane_key_v(code, *final(app)),
{
    match pane_action(code, app.ui.focus) {
        Some(a) => {
            run_pane_action(app, a);
            true
        },
        None => false,
    }
}

/// The first terminal from `i` on whose program is running.
pub open spec fn live_pty(v: Seq<PtyInfo>, i: int) -> Option<int>
    decreases v.len() - i,
{
    if i < 0 || i >= v.len() {
        None
    } else if !v[i].eof {
        Some(i)
    } else {
        live_pty(v, i + 1)
    }
}

fn find_live(v: &Vec<PtyInfo>) -> (r: Option<usize>)
    ensures
        match r {
            Some(i) => live_pty(v@, 0) == Some(i as int),
            None => live_pty(v@, 0) is None,
        },
{
    let mut i: usize = 0;
    while i < v.len()
        invariant
            i <= v@.len(),
            live_pty(v@, 0) == live_pty(v@, i as int),
        decreases v@.len() - i,
    {
        if !v[i].eof {
            return Some(i);
        }
        i += 1;
    }
    None
}

impl App {
    /// The program of the terminal at the cursor is not running.
    pub open spec fn pty_dead(self) -> bool {
        match self.pty() {
            Some(p) => p.eof,
            None => true,
        }
    }

    fn is_pty_dead(&self) -> (r: bool)
        ensures
            r == self.pty_dead(),
    {
        match self.cur_pty() {
            Some(p) => p.eof,
            None => true,
        }
    }

    /// What going to the terminals changes: to a running one, or to the launcher where there is
    /// none.
    pub open spec fn to_ptys_v(self, post: App) -> bool {
        match live_pty(self.terms.ptys@, 0) {
            Some(i) => (App {
                terms: (Terms {
                    sel: if self.pty_dead() { i as usize } else { self.terms.sel },
                    in_right: false,
                    ..self.terms
                }),
                ui: (Ui { focus: Pane::Pty, right_focused: false, right_scroll: 0, ..self.ui }),
                ..self.without_lens()
            }).planned(self.lens_steps(), post),
            None => self.open_pty_menu_v(post),
        }
    }

    /// What a letter of the menu bar changes.
    pub open spec fn letter_v(self, k: char, post: App) -> bool {
        if k == 'P' {
            self.to_ptys_v(post)
        } else {
            match pane_of_key(k) {
                Some(p) => self.go_to_pane_v(p, post),
                None => post == self,
            }
        }
    }
}

/// Does what a letter of the menu bar says.
pub fn dispatch_menubar_key(app: &mut App, k: char)
    ensures
        old(app).letter_v(k, *final(app)),
{
    if k == 'P' {
        match find_live(&app.terms.ptys) {
            Some(i) => {
                if app.is_pty_dead() {
                    app.terms.sel = i;
                }
                app.drop_lens();
                app.terms.in_right = false;
                app.snap_left();
                app.ui.focus = Pane::Pty;
            },
            None => {
                open_pty_menu(app);
            },
        }
        return;
    }
    match pane_for(k) {
        Some(p) => {
            app.go_to_pane(p);
        },
        None => {},
    }
}

/// The place of a letter on the menu bar, from `i` on.
pub open spec fn chip_place(chips: Seq<(char, Seq<char>)>, k: char, i: int) -> Option<int>
    decreases chips.len() - i,
{
    if i < 0 || i >= chips.len() {
        None
    } else if chips[i].0 == k {
        Some(i)
    } else {
        chip_place(chips, k, i + 1)
    }
}

fn place_of_chip(chips: &Vec<(char, &'static str)>, k: char) -> (r: Option<usize>)
    ensures
        match r {
            Some(i) => chip_place(chips_v(chips@), k, 0) == Some(i as int),
            None => chip_place(chips_v(chips@), k, 0) is None,
        },
{
    let mut i: usize = 0;
    while i < chips.len()
        invariant
            i <= chips@.len(),
            chip_place(chips_v(chips@), k, 0) == chip_place(chips_v(chips@), k, i as int),
        decreases chips@.len() - i,
    {
        assert(chips_v(chips@)[i as int].0 == chips@[i as int].0);
        if chips[i].0 == k {
            return Some(i);
        }
        i += 1;
    }
    None
}

impl App {
    /// The state with the cursor of the menu bar on another letter.
    pub open spec fn menu_at(self, i: int) -> App {
        App { ui: (Ui { menu_sel: i as usize, ..self.ui }), ..self }
    }

    /// The state without a cursor on the menu bar.
    pub open spec fn menu_left(self) -> App {
        App { ui: (Ui { menu_nav: false, ..self.ui }), ..self }
    }

    /// What a key changes while the cursor is on the menu bar.
    pub open spec fn menu_nav_v(self, code: KeyCode, post: App) -> bool {
        let chips = self.chips();
        let n = chips.len() as int;
        let sel = self.ui.menu_sel as int;
        match code {
            KeyCode::Esc => self.menu_left().says(post, "menu cancelled"@),
            KeyCode::Left => post == (if n > 0 { self.menu_at((sel + n - 1) % n) } else { self }),
            KeyCode::Right => post == (if n > 0 { self.menu_at((sel + 1) % n) } else { self }),
            KeyCode::Home => post == self.menu_at(0),
            KeyCode::End => post == (if n > 0 { self.menu_at(n - 1) } else { self }),
            KeyCode::Enter => if sel < n {
                self.menu_left().letter_v(chips[sel].0, post)
            } else {
                post == self.menu_left()
            },
            KeyCode::Char(c) => if chip_place(chips, c, 0) is Some {
                self.menu_left().letter_v(c, post)
            } else {
                self.menu_left().says(post, "menu cancelled (unknown chip)"@)
            },
            _ => post == self,
        }
    }

    fn menu_nav_key(&mut self, code: KeyCode)
        ensures
            old(self).menu_nav_v(code, *final(self)),
    {
        let chips: Vec<(char, &'static str)> = menubar_chips(self);
        let n: usize = chips.len();
        assert(chips_v(chips@).len() == n);
        match code {
            KeyCode::Esc => {
                self.ui.menu_nav = false;
                self.say("menu cancelled");
            },
            KeyCode::Left => {
                if n > 0 {
                    let i: u128 = (self.ui.menu_sel as u128 + n as u128 - 1) % (n as u128);
                    self.ui.menu_sel = i as usize;
                }
            },
            KeyCode::Right => {
                if n > 0 {
                    let i: u128 = (self.ui.menu_sel as u128 + 1) % (n as u128);
                    self.ui.menu_sel = i as usize;
                }
            },
            KeyCode::Home => {
                self.ui.menu_sel = 0;
            },
            KeyCode::End => {
                if n > 0 {
                    self.ui.menu_sel = n - 1;
                }
            },
            KeyCode::Enter => {
                self.ui.menu_nav = false;
                if self.ui.menu_sel < n {
                    assert(chips_v(chips@)[self.ui.menu_sel as int].0 == chips@[self.ui.menu_sel as int].0);
                    let k: char = chips[self.ui.menu_sel].0;
                    dispatch_menubar_key(self, k);
                }
            },
            KeyCode::Char(c) => {
                self.ui.menu_nav = false;
                if place_of_chip(&chips, c).is_some() {
                    dispatch_menubar_key(self, c);
                } else {
                    self.say("menu cancelled (unknown chip)");
                }
            },
            _ => {},
        }
    }

    /// What a key changes while a new name is typed.
    pub open spec fn rename_key_v(self, code: KeyCode, post: App) -> bool {
        match code {
            KeyCode::Enter => self.commit_rename_v(post),
            KeyCode::Esc => (App { ui: (Ui { renaming: None, ..self.ui }), ..self }).says(post, "rename cancelled"@),
            _ => {
                &&& opt_text(post.ui.renaming) == (match self.ui.renaming {
                    Some(s) => Some(crate::modals::edited(s@, code)),
                    None => None,
                })
                &&& post == (App { ui: (Ui { renaming: post.ui.renaming, ..self.ui }), ..self })
            },
        }
    }

    fn rename_key(&mut self, code: KeyCode)
        ensures
            old(self).rename_key_v(code, *final(self)),
    {
        match code {
            KeyCode::Enter => {
                self.commit_rename();
            },
            KeyCode::Esc => {
                self.ui.renaming = None;
                self.say("rename cancelled");
            },
            _ => {
                self.ui.renaming = match self.ui.renaming.take() {
                    Some(s) => Some(crate::modals::edit(s, code)),
                    None => None,
                };
            },
        }
    }

    /// The terminal gets the keys.
    pub open spec fn pty_has_keys(self) -> bool {
        self.ui.focus == Pane::Pty || (self.terms.in_right && self.ui.right_focused && self.terms.ptys@.len() > 0)
    }

    /// The state in which the help is shown.
    pub open spec fn helping(self) -> App {
        let s = self.snapped();
        App { ui: (Ui { focus: Pane::Help, out_scroll: 0, ..s.ui }), ..s }
    }

    /// What going to the help by its function key changes.
    pub open spec fn help_v(self, post: App) -> bool {
        self.without_lens().helping().planned(self.lens_steps(), post)
    }

    fn show_help(&mut self)
        ensures
            old(self).help_v(*final(self)),
    {
        self.drop_lens();
        self.snap_left();
        self.ui.focus = Pane::Help;
        self.ui.out_scroll = 0;
    }

    /// Esc was pressed a moment ago.
    pub open spec fn esc_pending(self, now: u64) -> bool {
        match self.terms.esc_at {
            Some(t) => minus(now as int, t as int) < 400,
            None => false,
        }
    }

    fn is_esc_pending(&self, now: u64) -> (r: bool)
        ensures
            r == self.esc_pending(now),
    {
        match self.terms.esc_at {
            Some(t) => now <= t || now - t < 400,
            None => false,
        }
    }

    /// The key takes the keys away from the terminal.
    pub open spec fn detaches(self, code: KeyCode, mods: Mods, now: u64) -> bool {
        ||| mods.ctrl && (code == KeyCode::Char(']') || code == KeyCode::Char('5'))
        ||| code == KeyCode::Char('\u{1d}')
        ||| code == KeyCode::F(12)
        ||| code == KeyCode::Esc && self.esc_pending(now)
    }

    /// What taking the keys away from the terminal changes.
    pub open spec fn detach_v(self, post: App) -> bool {
        &&& post == (App {
            terms: (Terms { esc_at: None, ..self.terms }),
            ui: (Ui {
                status: post.ui.status,
                focus: if self.ui.focus == Pane::Pty { Pane::Sessions } else { self.ui.focus },
                right_focused: if self.ui.focus == Pane::Pty { self.ui.right_focused } else { false },
                ..self.ui
            }),
            ..self
        })
        &&& post.ui.status@ == "PTY "@ + dec(fit(self.terms.sel + 1) as int) + "/"@ + dec(
            self.terms.ptys@.len() as int,
        ) + " detached (still running · Tab/P re-attach)"@
    }

    fn detach(&mut self)
        ensures
            old(self).detach_v(*final(self)),
    {
        self.terms.esc_at = None;
        if self.ui.focus == Pane::Pty {
            self.ui.focus = Pane::Sessions;
        } else {
            self.ui.right_focused = false;
        }
        let s: String = own("PTY ").concat(decimal(self.terms.sel.saturating_add(1) as u64).as_str()).concat("/").concat(
            decimal(self.terms.ptys.len() as u64).as_str(),
        ).concat(" detached (still running · Tab/P re-attach)");
        self.say(s.as_str());
    }

    /// The Esc that is held back, which goes to the program before any other key.
    pub open spec fn held_back(self) -> Seq<StepV> {
        if self.terms.esc_at is Some { seq![StepV::Input(seq![0x1bu8])] } else { Seq::empty() }
    }

    /// What a key that is sent to the program changes. An Esc that was held back goes first.
    pub open spec fn type_v(self, bytes: Seq<u8>, post: App) -> bool {
        (App { terms: (Terms { esc_at: None, ..self.terms }), ..self }).planned(
            self.held_back() + seq![StepV::Input(bytes)],
            post,
        )
    }

    /// Sends the Esc that is held back.
    fn flush_esc(&mut self)
        ensures
            (App { terms: (Terms { esc_at: None, ..old(self).terms }), ..*old(self) }).planned(
                old(self).held_back(),
                *final(self),
            ),
    {
        let ghost orig = *self;
        if self.terms.esc_at.is_some() {
            self.terms.esc_at = None;
            let esc: Vec<u8> = vec![0x1bu8];
            assert(esc@ =~= seq![0x1bu8]);
            self.first(Step::Input(esc));
        }
        assert(self.plan() =~= orig.held_back() + orig.plan());
    }

    fn type_bytes(&mut self, bytes: Vec<u8>)
        ensures
            old(self).type_v(bytes@, *final(self)),
    {
        let ghost orig = *self;
        self.first(Step::Input(bytes));
        self.flush_esc();
        assert(self.plan() =~= orig.held_back() + seq![StepV::Input(bytes@)] + orig.plan());
    }

    /// What a single Esc changes: it is held back until it is known not to be the first of two.
    pub open spec fn lone_esc_v(self, now: u64, post: App) -> bool {
        (App { terms: (Terms { esc_at: Some(now), ..self.terms }), ..self }).planned(self.held_back(), post)
    }

    /// What a key changes while the terminal has the keys.
    pub open spec fn pty_key_v(self, code: KeyCode, mods: Mods, now: u64, post: App) -> bool {
        match code {
            KeyCode::F(2) => self.pty_next_v(post),
            KeyCode::F(3) => self.pty_prev_v(post),
            KeyCode::F(4) => match self.menu() {
                Some((title, items)) => self.asks(ModalV::ActionMenu { title, items, sel: 0 }, post),
                None => post == self,
            },
            KeyCode::F(7) => self.open_pty_menu_v(post),
            KeyCode::F(8) => self.pty_kill_v(post),
            KeyCode::F(11) => self.shrink_v(post),
            KeyCode::F(1) => self.help_v(post),
            _ => if self.pty_dead() {
                self.pty_kill_v(post)
            } else if self.detaches(code, mods, now) {
                self.detach_v(post)
            } else if code == KeyCode::Esc {
                self.lone_esc_v(now, post)
            } else {
                match key_bytes(code, mods) {
                    Some(b) => self.type_v(b, post),
                    None => post == self,
                }
            },
        }
    }

    fn pty_key(&mut self, code: KeyCode, mods: Mods, now: u64)
        ensures
            old(self).pty_key_v(code, mods, now, *final(self)),
    {
        match code {
            KeyCode::F(2) => {
                self.pty_next();
            },
            KeyCode::F(3) => {
                self.pty_prev();
            },
            KeyCode::F(4) => {
                match pane_action_menu(self) {
                    Some((title, items)) => {
                        self.ui.modal = Some(Modal::ActionMenu { title, items, sel: 0 });
                    },
                    None => {},
                }
            },
            KeyCode::F(7) => {
                open_pty_menu(self);
            },
            KeyCode::F(8) => {
                self.pty_kill();
            },
            KeyCode::F(11) => {
                self.shrink_pty();
            },
            KeyCode::F(1) => {
                self.show_help();
            },
            _ => {
                let chord: bool = (mods.ctrl && (code == KeyCode::Char(']') || code == KeyCode::Char('5'))) || code
                    == KeyCode::Char('\u{1d}') || code == KeyCode::F(12) || (code == KeyCode::Esc
                    && self.is_esc_pending(now));
                if self.is_pty_dead() {
                    self.pty_kill();
                } else if chord {
                    self.detach();
                } else if code == KeyCode::Esc {
                    self.flush_esc();
                    self.terms.esc_at = Some(now);
                } else {
                    match key_to_pty_bytes(code, mods) {
                        Some(b) => {
                            self.type_bytes(b);
                        },
                        None => {},
                    }
                }
            },
        }
    }

    /// What putting the cursor on the menu bar changes.
    pub open spec fn enter_menu_v(self, post: App) -> bool {
        let at = match chip_place(self.chips(), pane_name(self.ui.focus).0, 0) {
            Some(i) => i,
            None => 0,
        };
        &&& post == (App {
            ui: (Ui { menu_sel: at as usize, menu_nav: true, status: post.ui.status, ..self.ui }),
            ..self
        })
        &&& post.ui.status@ == "menu — ←/→ move · Enter pick · Esc cancel"@
    }

    fn enter_menu(&mut self)
        ensures
            old(self).enter_menu_v(*final(self)),
    {
        let chips: Vec<(char, &'static str)> = menubar_chips(self);
        let at: usize = match view_of_pane(self.ui.focus) {
            Some((k, _, _)) => match place_of_chip(&chips, k) {
                Some(i) => i,
                None => 0,
            },
            None => 0,
        };
        self.ui.menu_sel = at;
        self.ui.menu_nav = true;
        self.say("menu — ←/→ move · Enter pick · Esc cancel");
    }

    /// What a function key changes.
    pub open spec fn f_key_v(self, n: u8, post: App) -> bool {
        let p = self.ui.focus;
        if n == 1 {
            self.help_v(post)
        } else if n == 2 {
            self.open_pty_menu_v(post)
        } else if n == 3 {
            post == self.next_pane_v()
        } else if n == 4 {
            self.action_menu_v(post)
        } else if n == 5 {
            if p == Pane::Hunks {
                self.take_hunk_v(false, post)
            } else if p == Pane::Changes {
                self.review_v(false, post)
            } else {
                post == self
            }
        } else if n == 6 {
            if p == Pane::Sessions { self.start_rename_v(post) } else { post == self }
        } else if n == 7 {
            if p == Pane::Rules {
                self.asks(ModalV::RuleForm { buf: Seq::empty(), editing: None }, post)
            } else if p == Pane::Sessions {
                self.planned(seq![StepV::ReadImageConf], post)
            } else {
                post == self
            }
        } else if n == 8 {
            if p == Pane::Hunks {
                self.take_hunk_v(true, post)
            } else if p == Pane::Changes {
                self.review_v(true, post)
            } else if p == Pane::Rules {
                self.delete_rule_v(post)
            } else if p == Pane::Sessions {
                self.asks(
                    ModalV::Confirm { prompt: delete_prompt(self.scope_text()), action: ConfirmAction::Dissolve },
                    post,
                )
            } else {
                post == self
            }
        } else if n == 9 {
            self.enter_menu_v(post)
        } else if n == 10 {
            self.quitting().planned(seq![StepV::Shutdown], post)
        } else if n == 11 {
            self.embed_v(post)
        } else {
            post == self
        }
    }

    fn f_key(&mut self, n: u8)
        ensures
            old(self).f_key_v(n, *final(self)),
    {
        let p: Pane = self.ui.focus;
        match n {
            1 => self.show_help(),
            2 => open_pty_menu(self),
            3 => self.next_pane(),
            4 => self.open_action_menu(),
            5 => {
                if p == Pane::Hunks {
                    self.apply_hunk();
                } else if p == Pane::Changes {
                    self.apply();
                }
            },
            6 => {
                if p == Pane::Sessions {
                    self.start_rename();
                }
            },
            7 => {
                if p == Pane::Rules {
                    self.new_rule();
                } else if p == Pane::Sessions {
                    self.open_image_picker();
                }
            },
            8 => {
                if p == Pane::Hunks {
                    self.discard_hunk();
                } else if p == Pane::Changes {
                    self.discard();
                } else if p == Pane::Rules {
                    self.delete_rule();
                } else if p == Pane::Sessions {
                    self.ask_dissolve();
                }
            },
            9 => self.enter_menu(),
            10 => self.quit(),
            11 => self.toggle_embed(),
            _ => {},
        }
    }

    /// The answer that a key gives to the question of the engine.
    pub open spec fn verdict_of(code: KeyCode) -> Option<Verdict> {
        match code {
            KeyCode::Char('y') => Some(Verdict::YesOnce),
            KeyCode::Char('n') => Some(Verdict::NoOnce),
            KeyCode::Char('a') => Some(Verdict::AllowSave),
            KeyCode::Char('d') => Some(Verdict::DenySave),
            _ => None,
        }
    }

    fn verdict(code: KeyCode) -> (r: Option<Verdict>)
        ensures
            r == App::verdict_of(code),
    {
        match code {
            KeyCode::Char('y') => Some(Verdict::YesOnce),
            KeyCode::Char('n') => Some(Verdict::NoOnce),
            KeyCode::Char('a') => Some(Verdict::AllowSave),
            KeyCode::Char('d') => Some(Verdict::DenySave),
            _ => None,
        }
    }

    /// What Esc changes: the selection is cleared, or else a narrowing that was made by going
    /// from pane to pane.
    pub open spec fn esc_v(self, post: App) -> bool {
        if self.ui.focus == Pane::Packets {
            post == (App { ui: (Ui { focus: Pane::Flows, right_scroll: 0, ..self.ui }), ..self })
        } else if self.boxes.marks.keys@.len() > 0 {
            self.clear_marks_v(post)
        } else {
            match crate::filters::list_of(self.ui.focus) {
                Some(v) => if self.filter(v).generated { self.clear_filter_v(v, post) } else { post == self },
                None => post == self,
            }
        }
    }

    fn esc_key(&mut self)
        ensures
            old(self).esc_v(*final(self)),
    {
        if self.ui.focus == Pane::Packets {
            self.close_packets();
            return;
        }
        if !self.clear_marks() {
            match self.focus_filter_view() {
                Some(v) => {
                    if self.view_filter(v).generated {
                        self.clear_filter(v);
                    }
                },
                None => {},
            }
        }
    }

    /// The letter goes to a pane, whatever else it does elsewhere.
    pub open spec fn goes_to_pane(self, c: char) -> bool {
        pane_of_key(c) is Some && !(c == 'f' && action_of(KeyCode::Char('f'), self.ui.focus) is Some)
    }

    /// What a key changes where nothing else gets it.
    pub open spec fn plain_key_v(self, code: KeyCode, mods: Mods, post: App) -> bool {
        match code {
            KeyCode::Up => if mods.ctrl && self.ui.focus == Pane::Rules {
                self.move_rule_v(false, post)
            } else {
                self.move_v(false, post)
            },
            KeyCode::Down => if mods.ctrl && self.ui.focus == Pane::Rules {
                self.move_rule_v(true, post)
            } else {
                self.move_v(true, post)
            },
            KeyCode::PageDown => self.page_v(true, post),
            KeyCode::PageUp => self.page_v(false, post),
            KeyCode::Home => self.extreme_v(false, post),
            KeyCode::End => self.extreme_v(true, post),
            KeyCode::Backspace => self.go_back_v(post),
            KeyCode::Esc => self.esc_v(post),
            KeyCode::Char(c) => if c == '!' {
                self.toggle_err_only_v(post)
            } else if self.goes_to_pane(c) {
                self.letter_v(c, post)
            } else {
                self.pane_key_v(code, post)
            },
            _ => self.pane_key_v(code, post),
        }
    }

    fn plain_key(&mut self, code: KeyCode, mods: Mods)
        ensures
            old(self).plain_key_v(code, mods, *final(self)),
    {
        let on_rules: bool = mods.ctrl && self.ui.focus == Pane::Rules;
        match code {
            KeyCode::Up => {
                if on_rules {
                    self.move_rule(false);
                } else {
                    self.move_up();
                }
            },
            KeyCode::Down => {
                if on_rules {
                    self.move_rule(true);
                } else {
                    self.move_down();
                }
            },
            KeyCode::PageDown => self.page_down(),
            KeyCode::PageUp => self.page_up(),
            KeyCode::Home => self.move_home(),
            KeyCode::End => self.move_end(),
            KeyCode::Backspace => self.go_back(),
            KeyCode::Esc => self.esc_key(),
            KeyCode::Char(c) => {
                let gated: bool = c == 'f' && pane_action(KeyCode::Char('f'), self.ui.focus).is_some();
                if c == '!' {
                    self.toggle_err_only();
                } else if pane_for(c).is_some() && !gated {
                    dispatch_menubar_key(self, c);
                } else {
                    let _ = dispatch_pane_key(self, code);
                }
            },
            _ => {
                let _ = dispatch_pane_key(self, code);
            },
        }
    }

    /// What a key changes; `now` is the time in milliseconds.
    pub open spec fn key_v(self, code: KeyCode, mods: Mods, now: u64, post: App) -> bool {
        if self.ui.modal is Some {
            self.modal_key_v(code, mods, post)
        } else if self.ui.menu_nav {
            self.menu_nav_v(code, post)
        } else if self.ui.renaming is Some {
            self.rename_key_v(code, post)
        } else if self.pty_has_keys() {
            self.pty_key_v(code, mods, now, post)
        } else if let KeyCode::F(n) = code {
            self.f_key_v(n, post)
        } else if self.jobs.prompt is Some && App::verdict_of(code) is Some {
            self.answer_prompt_v(App::verdict_of(code)->0, post)
        } else {
            self.plain_key_v(code, mods, post)
        }
    }

    /// Takes in a key.
    pub fn on_key(&mut self, code: KeyCode, mods: Mods, now: u64)
        ensures
            old(self).key_v(code, mods, now, *final(self)),
    {
        if self.ui.modal.is_some() {
            handle_modal_key(self, code, mods);
            return;
        }
        if self.ui.menu_nav {
            self.menu_nav_key(code);
            return;
        }
        if self.ui.renaming.is_some() {
            self.rename_key(code);
            return;
        }
        if self.ui.focus == Pane::Pty || (self.terms.in_right && self.ui.right_focused && self.terms.ptys.len() > 0) {
            self.pty_key(code, mods, now);
            return;
        }
        match code {
            KeyCode::F(n) => {
                self.f_key(n);
                return;
            },
            _ => {},
        }
        if self.jobs.prompt.is_some() {
            match App::verdict(code) {
                Some(v) => {
                    self.answer_prompt(v);
                    return;
                },
                None => {},
            }
        }
        self.plain_key(code, mods);
    }
}

/// While a dialog is open, nothing but the dialog gets a key.
pub proof fn law_dialog_gets_every_key(a: App, b: App, code: KeyCode, mods: Mods, now: u64)
    requires
        a.ui.modal is Some,
        a.key_v(code, mods, now, b),
    ensures
        a.modal_key_v(code, mods, b),
{
}

/// A key that the program in the terminal is sent does nothing here but that.
pub proof fn law_typed_keys_reach_the_program(a: App, b: App, code: KeyCode, mods: Mods, now: u64)
    requires
        a.ui.modal is None,
        !a.ui.menu_nav,
        a.ui.renaming is None,
        a.pty_has_keys(),
        !a.pty_dead(),
        !(code is F),
        code != KeyCode::Esc,
        !a.detaches(code, mods, now),
        key_bytes(code, mods) is Some,
        a.key_v(code, mods, now, b),
    ensures
        a.type_v(key_bytes(code, mods)->0, b),
        b.ui == a.ui,
        b.boxes == a.boxes,
        b.lists == a.lists,
{
}

/// An Esc that does not take the keys away from the program reaches it before what is typed next:
/// one is held back at a time, and goes when another key comes.
pub proof fn law_every_esc_reaches_the_program(a: App, b: App, code: KeyCode, mods: Mods, now: u64)
    requires
        a.ui.modal is None,
        !a.ui.menu_nav,
        a.ui.renaming is None,
        a.pty_has_keys(),
        !a.pty_dead(),
        !(code is F),
        !a.detaches(code, mods, now),
        code == KeyCode::Esc || key_bytes(code, mods) is Some,
        a.key_v(code, mods, now, b),
    ensures
        b.plan() + b.held_back() == a.held_back() + (if code == KeyCode::Esc {
            a.plan().push(StepV::Input(seq![0x1bu8]))
        } else {
            seq![StepV::Input(key_bytes(code, mods)->0)] + a.plan()
        }),
{
    assert(b.plan() + b.held_back() =~= a.held_back() + (if code == KeyCode::Esc {
        a.plan().push(StepV::Input(seq![0x1bu8]))
    } else {
        seq![StepV::Input(key_bytes(code, mods)->0)] + a.plan()
    }));
}

impl App {
    /// Another terminal is gone to, one is opened or closed.
    pub open spec fn terminals_change(self, r: Result<(u16, u16), String>, post: App) -> bool {
        ||| self.pty_next_v(post)
        ||| self.pty_prev_v(post)
        ||| self.pty_opened_v(r, post)
        ||| self.pty_kill_v(post)
        ||| self.to_ptys_v(post)
    }

    /// The cursor of the terminals is on one of them, or on the first place where there are none.
    pub open spec fn pty_cursor_fits(self) -> bool {
        self.terms.sel < self.terms.ptys@.len() || (self.terms.ptys@.len() == 0 && self.terms.sel == 0)
    }
}

/// The cursor of the terminals stays on one of them, whichever is gone to, opened or closed.
pub proof fn law_terminal_cursor_is_on_a_terminal(a: App, b: App, r: Result<(u16, u16), String>)
    requires
        a.pty_cursor_fits(),
        a.terminals_change(r, b),
    ensures
        b.pty_cursor_fits(),
{
    assert(a.terms.ptys@.len() == a.terms.ptys.len());
    assert(b.terms.ptys@.len() == b.terms.ptys.len());
    if live_pty(a.terms.ptys@, 0) is Some {
        lemma_live_pty(a.terms.ptys@, 0);
    }
}

proof fn lemma_live_pty(v: Seq<PtyInfo>, from: int)
    ensures
        live_pty(v, from) matches Some(i) ==> from <= i < v.len() && !v[i].eof,
    decreases v.len() - from,
{
    if 0 <= from < v.len() && v[from].eof {
        lemma_live_pty(v, from + 1);
    }
}

impl App {
    /// A terminal that has the screen to itself stands beside no list.
    pub open spec fn stands_alone(self) -> bool {
        self.ui.focus == Pane::Pty ==> !self.terms.in_right
    }
}

/// A terminal that has the screen to itself stands beside no list: going to it ends that, and
/// putting it beside one leaves the screen to the list.
pub proof fn law_terminal_stands_alone_or_beside(a: App, b: App, r: Result<(u16, u16), String>)
    requires
        a.stands_alone(),
        a.terminals_change(r, b) || a.embed_v(b) || a.shrink_v(b),
    ensures
        b.stands_alone(),
{
}

impl App {
    /// Another pane is gone to: by its letter, by a function key, or because a terminal was opened
    /// or is put beside the boxes.
    pub open spec fn leaves_v(self, pane: Pane, rows: u16, cols: u16, post: App) -> bool {
        ||| pane != self.ui.focus && self.go_to_pane_v(pane, post)
        ||| live_pty(self.terms.ptys@, 0) is Some && self.to_ptys_v(post)
        ||| self.help_v(post)
        ||| self.shrink_v(post)
        ||| self.pty_opened_v(Ok((rows, cols)), post)
    }
}

/// That only errors are shown ends where another pane is gone to, whichever way: the first thing
/// that is planned is that the list that is left shows all again.
pub proof fn law_errors_only_ends_with_its_pane(a: App, b: App, pane: Pane, rows: u16, cols: u16)
    requires
        a.shown.err_only,
        a.leaves_v(pane, rows, cols, b),
    ensures
        !b.shown.err_only,
        b.plan().take(a.lens_steps().len() as int) == a.lens_steps(),
{
    assert(b.plan().take(a.lens_steps().len() as int) =~= a.lens_steps());
}

/// Taking the keys away from a terminal ends nothing: its program goes on.
pub proof fn law_detached_terminals_keep_running(a: App, b: App)
    requires
        a.detach_v(b),
    ensures
        b.terms.ptys == a.terms.ptys,
        b.terms.sel == a.terms.sel,
        b.todo == a.todo,
{
}

/// Esc drops a selection before it drops a narrowing.
pub proof fn law_esc_drops_the_selection_first(a: App, b: App)
    requires
        a.ui.focus != Pane::Packets,
        a.boxes.marks.keys@.len() > 0,
        a.esc_v(b),
    ensures
        b.boxes.marks.keys@.len() == 0,
        b.lists == a.lists,
        b.shown == a.shown,
        b.todo == a.todo,
{
}

/// Killing and deleting boxes is asked about first: the actions for it only open the question.
pub proof fn law_destruction_is_asked_about(a: App, b: App, action: PaneAction)
    requires
        action == PaneAction::ConfirmKill || action == PaneAction::ConfirmDissolve,
        a.pane_action_v(action, b),
    ensures
        modal_v(b.ui.modal) is Some && modal_v(b.ui.modal)->0 is Confirm,
        b == (App { ui: (Ui { modal: b.ui.modal, ..a.ui }), ..a }),
{
}

/// A question of the engine gets its four keys before the pane does.
pub proof fn law_question_gets_its_keys(a: App, b: App, code: KeyCode, mods: Mods, now: u64)
    requires
        a.ui.modal is None,
        !a.ui.menu_nav,
        a.ui.renaming is None,
        !a.pty_has_keys(),
        a.jobs.prompt is Some,
        App::verdict_of(code) is Some,
        a.key_v(code, mods, now, b),
    ensures
        a.answer_prompt_v(App::verdict_of(code)->0, b),
{
}

/// Choosing a letter of the menu bar with the cursor does what typing it there does, and what
/// typing it on the pane does, where the letter means nothing else on it.
pub proof fn law_menu_choice_is_its_letter(a: App, b: App, mods: Mods)
    requires
        a.ui.menu_sel < a.chips().len(),
    ensures
        a.menu_nav_v(KeyCode::Enter, b) == a.menu_nav_v(KeyCode::Char(a.chips()[a.ui.menu_sel as int].0), b),
        a.goes_to_pane(a.chips()[a.ui.menu_sel as int].0) ==> a.menu_nav_v(KeyCode::Enter, b)
            == a.menu_left().plain_key_v(KeyCode::Char(a.chips()[a.ui.menu_sel as int].0), mods, b),
{
    let c = a.chips()[a.ui.menu_sel as int].0;
    lemma_chip_placed(a.chips(), c, 0, a.ui.menu_sel as int);
    if c == '!' {
        reveal_with_fuel(crate::keys::pane_from, 20);
        assert(pane_of_key('!') is None);
    }
}

proof fn lemma_chip_placed(chips: Seq<(char, Seq<char>)>, k: char, from: int, i: int)
    requires
        0 <= from <= i < chips.len(),
        chips[i].0 == k,
    ensures
        chip_place(chips, k, from) is Some,
    decreases i - from,
{
    if chips[from].0 != k {
        lemma_chip_placed(chips, k, from + 1, i);
    }
}

} // verus!
