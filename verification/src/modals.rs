//! The keys of the dialogs.

use vstd::prelude::*;

use crate::app::{App, Jobs, Launch, Side, Ui, Vars};
#[allow(unused_imports)]
use crate::app::{net_after, StepV};
use crate::jobs::endpoint_file;
use crate::keys::{confirm_key, ConfirmKey, KeyCode, Mods};
#[allow(unused_imports)]
use crate::keys::confirm_of;
use crate::launch::{build_launch, How, LaunchTarget, Placement};
#[allow(unused_imports)]
use crate::launch::{launch_words, HowV, PlacementV, TargetV};
#[allow(unused_imports)]
use crate::lists::less_one;
use crate::menus::run_action;
use crate::rules::Join;
#[allow(unused_imports)]
use crate::rules::ClauseV;
use crate::shell::shell_split;
#[allow(unused_imports)]
use crate::shell::split_words_of;
use crate::text::{own, same, split_words, trim};
#[allow(unused_imports)]
use crate::text::{strs, trimmed, words};
use crate::types::{
    Action, ActionItem, ApiField, ClauseField, ClauseRow, ConfirmAction, FilterView, Modal, ModelRow,
    PickItem, PickLevel, PickNext,
};
#[allow(unused_imports)]
use crate::types::{
    items_v, kinds_of, levels_v, modal_v, models_v, next_v, pick_v, picks, rows_v, slices, ItemV, LevelV, ModalV, ModelV,
    NextV, PickV,
};

verus! {

/// A text after a key: without its last character, with one more, or as it was.
pub open spec fn edited(buf: Seq<char>, code: KeyCode) -> Seq<char> {
    match code {
        KeyCode::Backspace => if buf.len() > 0 { buf.drop_last() } else { buf },
        KeyCode::Char(c) => buf.push(c),
        _ => buf,
    }
}

pub(crate) fn edit(buf: String, code: KeyCode) -> (r: String)
    ensures
        r@ == edited(buf@, code),
{
    let mut s: String = buf;
    match code {
        KeyCode::Backspace => {
            let _ = s.pop();
        },
        KeyCode::Char(c) => {
            s.push(c);
        },
        _ => {},
    }
    s
}

/// The cursor of a menu after a key, of `n` entries.
pub open spec fn menu_cursor(sel: int, n: int, code: KeyCode) -> int {
    match code {
        KeyCode::Up => less_one(sel),
        KeyCode::Down => if sel + 1 < n { sel + 1 } else { sel },
        KeyCode::Home => 0,
        KeyCode::End => less_one(n),
        _ => sel,
    }
}

fn move_in_menu(sel: usize, n: usize, code: KeyCode) -> (r: usize)
    ensures
        r as int == menu_cursor(sel as int, n as int, code),
{
    match code {
        KeyCode::Up => if sel > 0 { sel - 1 } else { 0 },
        KeyCode::Down => if n > 0 && sel < n - 1 { sel + 1 } else { sel },
        KeyCode::Home => 0,
        KeyCode::End => if n > 0 { n - 1 } else { 0 },
        _ => sel,
    }
}

fn move_in_models(sel: usize, n: usize, code: KeyCode) -> (r: usize)
    ensures
        r as int == menu_cursor(sel as int, n as int + 1, code),
{
    match code {
        KeyCode::Up => if sel > 0 { sel - 1 } else { 0 },
        KeyCode::Down => if sel < n { sel + 1 } else { sel },
        KeyCode::Home => 0,
        KeyCode::End => n,
        _ => sel,
    }
}

/// The columns of the filter editor, from left to right.
pub open spec fn field_at(i: int) -> ClauseField {
    if i <= 0 {
        ClauseField::Enabled
    } else if i == 1 {
        ClauseField::Join
    } else if i == 2 {
        ClauseField::Negate
    } else if i == 3 {
        ClauseField::Kind
    } else {
        ClauseField::Pattern
    }
}

/// The place of a column.
pub open spec fn field_no(f: ClauseField) -> int {
    match f {
        ClauseField::Enabled => 0,
        ClauseField::Join => 1,
        ClauseField::Negate => 2,
        ClauseField::Kind => 3,
        ClauseField::Pattern => 4,
    }
}

fn field_after(f: ClauseField, right: bool) -> (r: ClauseField)
    ensures
        r == field_at(if right { field_no(f) + 1 } else { field_no(f) - 1 }),
{
    if right {
        match f {
            ClauseField::Enabled => ClauseField::Join,
            ClauseField::Join => ClauseField::Negate,
            ClauseField::Negate => ClauseField::Kind,
            ClauseField::Kind => ClauseField::Pattern,
            ClauseField::Pattern => ClauseField::Pattern,
        }
    } else {
        match f {
            ClauseField::Enabled => ClauseField::Enabled,
            ClauseField::Join => ClauseField::Enabled,
            ClauseField::Negate => ClauseField::Join,
            ClauseField::Kind => ClauseField::Negate,
            ClauseField::Pattern => ClauseField::Kind,
        }
    }
}

/// The first place of a text among others, from `i` on.
pub open spec fn place_of(v: Seq<Seq<char>>, k: Seq<char>, i: int) -> Option<int>
    decreases v.len() - i,
{
    if i < 0 || i >= v.len() {
        None
    } else if v[i] == k {
        Some(i)
    } else {
        place_of(v, k, i + 1)
    }
}

/// The kind of clause behind another; behind the last is the first.
pub open spec fn kind_after(kinds: Seq<Seq<char>>, k: Seq<char>) -> Seq<char> {
    let i = match place_of(kinds, k, 0) {
        Some(i) => i,
        None => 0,
    };
    kinds[if i + 1 < kinds.len() { i + 1 } else { 0 }]
}

fn next_kind(view: FilterView, k: &str) -> (r: String)
    ensures
        r@ == kind_after(kinds_of(view), k@),
{
    let kinds: Vec<&'static str> = view.kinds();
    let ghost v = kinds_of(view);
    assert(slices(kinds@).len() == kinds@.len());
    let mut i: usize = 0;
    let mut found: usize = 0;
    let mut done: bool = false;
    while i < kinds.len()
        invariant
            i <= kinds@.len() == v.len(),
            v == slices(kinds@),
            found < v.len(),
            done ==> place_of(v, k@, 0) == Some(found as int),
            !done ==> place_of(v, k@, 0) == place_of(v, k@, i as int) && found == 0,
        decreases kinds@.len() - i,
    {
        assert(v[i as int] == kinds@[i as int]@);
        if !done && same(kinds[i], k) {
            found = i;
            done = true;
        }
        i += 1;
    }
    let next: usize = if found + 1 < kinds.len() { found + 1 } else { 0 };
    assert(v[next as int] == kinds@[next as int]@);
    own(kinds[next])
}

/// A line of the filter editor after a key.
pub open spec fn row_edited(view: FilterView, r: ClauseV, field: ClauseField, code: KeyCode) -> ClauseV {
    let space = code == KeyCode::Char(' ');
    match field {
        ClauseField::Pattern => ClauseV { pattern: edited(r.pattern, code), ..r },
        ClauseField::Enabled => if space { ClauseV { enabled: !r.enabled, ..r } } else { r },
        ClauseField::Negate => if space { ClauseV { negate: !r.negate, ..r } } else { r },
        ClauseField::Join => if space || code == KeyCode::Char('j') || code == KeyCode::Char('o') {
            ClauseV {
                join: match r.join {
                    Join::And => Join::Or,
                    Join::Or => Join::And,
                },
                ..r
            }
        } else {
            r
        },
        ClauseField::Kind => if space { ClauseV { kind: kind_after(kinds_of(view), r.kind), ..r } } else { r },
    }
}

fn edit_row(view: FilterView, r: ClauseRow, field: ClauseField, code: KeyCode) -> (out: ClauseRow)
    ensures
        out@ == row_edited(view, r@, field, code),
{
    let mut out: ClauseRow = r;
    let space: bool = code == KeyCode::Char(' ');
    match field {
        ClauseField::Pattern => {
            out.pattern = edit(out.pattern, code);
        },
        ClauseField::Enabled => {
            if space {
                out.enabled = !out.enabled;
            }
        },
        ClauseField::Negate => {
            if space {
                out.negate = !out.negate;
            }
        },
        ClauseField::Join => {
            if space || code == KeyCode::Char('j') || code == KeyCode::Char('o') {
                out.join = match out.join {
                    Join::And => Join::Or,
                    Join::Or => Join::And,
                };
            }
        },
        ClauseField::Kind => {
            if space {
                out.kind = next_kind(view, out.kind.as_str());
            }
        },
    }
    out
}

/// The filter editor after a key that edits.
pub open spec fn search_edited(view: FilterView, rows: Seq<ClauseV>, sel: int, field: ClauseField, code: KeyCode) -> ModalV {
    match code {
        KeyCode::Left => ModalV::Search { view, rows, sel, field: field_at(field_no(field) - 1) },
        KeyCode::Right => ModalV::Search { view, rows, sel, field: field_at(field_no(field) + 1) },
        KeyCode::Up => ModalV::Search { view, rows, sel: less_one(sel), field },
        KeyCode::Down => ModalV::Search {
            view,
            rows,
            sel: if sel + 1 <= less_one(rows.len() as int) { sel + 1 } else { less_one(rows.len() as int) },
            field,
        },
        _ => if code == KeyCode::Char('n') && field != ClauseField::Pattern {
            ModalV::Search {
                view,
                rows: rows.push(
                    ClauseV {
                        kind: kinds_of(view)[0],
                        pattern: Seq::empty(),
                        join: Join::And,
                        negate: false,
                        enabled: true,
                    },
                ),
                sel: rows.len() as int,
                field: ClauseField::Pattern,
            }
        } else if 0 <= sel < rows.len() {
            ModalV::Search { view, rows: rows.update(sel, row_edited(view, rows[sel], field, code)), sel, field }
        } else {
            ModalV::Search { view, rows, sel, field }
        },
    }
}

fn edit_search(view: FilterView, rows: Vec<ClauseRow>, sel: usize, field: ClauseField, code: KeyCode) -> (r: Modal)
    ensures
        r@ == search_edited(view, rows_v(rows@), sel as int, field, code),
{
    let ghost v = rows_v(rows@);
    assert(v.len() == rows@.len());
    match code {
        KeyCode::Left => Modal::Search { view, rows, sel, field: field_after(field, false) },
        KeyCode::Right => Modal::Search { view, rows, sel, field: field_after(field, true) },
        KeyCode::Up => Modal::Search { view, rows, sel: if sel > 0 { sel - 1 } else { 0 }, field },
        KeyCode::Down => {
            let last: usize = if rows.len() > 0 { rows.len() - 1 } else { 0 };
            Modal::Search { view, rows, sel: if sel < last { sel + 1 } else { last }, field }
        },
        _ => {
            let mut rows: Vec<ClauseRow> = rows;
            if code == KeyCode::Char('n') && field != ClauseField::Pattern {
                let kinds: Vec<&'static str> = view.kinds();
                assert(slices(kinds@).len() == kinds@.len());
                assert(slices(kinds@)[0] == kinds@[0]@);
                let pattern: String = String::new();
                assert(pattern@ =~= Seq::<char>::empty());
                let n: usize = rows.len();
                rows.push(ClauseRow { enabled: true, join: Join::And, negate: false, kind: own(kinds[0]), pattern });
                assert(rows_v(rows@) =~= search_edited(view, v, sel as int, field, code)->Search_rows);
                Modal::Search { view, rows, sel: n, field: ClauseField::Pattern }
            } else if sel < rows.len() {
                let r: ClauseRow = rows.remove(sel);
                let out: ClauseRow = edit_row(view, r, field, code);
                rows.insert(sel, out);
                assert(rows_v(rows@) =~= v.update(sel as int, row_edited(view, v[sel as int], field, code)));
                Modal::Search { view, rows, sel, field }
            } else {
                Modal::Search { view, rows, sel, field }
            }
        },
    }
}

/// The image picker after a key that moves the cursor of its last level.
pub open spec fn level_moved(stack: Seq<LevelV>, code: KeyCode) -> Seq<LevelV> {
    if stack.len() == 0 {
        stack
    } else {
        let l = stack.last();
        stack.drop_last().push(LevelV { sel: menu_cursor(l.sel, l.items.len() as int, code), ..l })
    }
}

fn move_in_level(stack: Vec<PickLevel>, code: KeyCode) -> (r: Vec<PickLevel>)
    ensures
        levels_v(r@) == level_moved(levels_v(stack@), code),
{
    let ghost v = levels_v(stack@);
    assert(v.len() == stack@.len());
    let mut s: Vec<PickLevel> = stack;
    match s.pop() {
        Some(l) => {
            assert(v.last() == l@);
            assert(l@.items.len() == l.items@.len());
            let sel: usize = move_in_menu(l.sel, l.items.len(), code);
            s.push(PickLevel { items: l.items, sel });
            assert(levels_v(s@) =~= level_moved(v, code));
        },
        None => {},
    }
    s
}

/// The entry of the image picker that the cursor is on.
pub open spec fn picked(stack: Seq<LevelV>) -> Option<PickV> {
    if stack.len() > 0 && 0 <= stack.last().sel < stack.last().items.len() {
        Some(stack.last().items[stack.last().sel])
    } else {
        None
    }
}

fn pick(stack: &Vec<PickLevel>) -> (r: Option<PickItem>)
    ensures
        match r {
            Some(p) => picked(levels_v(stack@)) == Some(pick_v(p)),
            None => picked(levels_v(stack@)) is None,
        },
{
    assert(levels_v(stack@).len() == stack@.len());
    if stack.len() == 0 {
        return None;
    }
    let l: &PickLevel = &stack[stack.len() - 1];
    assert(levels_v(stack@).last() == l@);
    assert(l@.items.len() == l.items@.len());
    if l.sel < l.items.len() {
        assert(l@.items[l.sel as int] == pick_v(l.items@[l.sel as int]));
        Some(l.items[l.sel].copy())
    } else {
        None
    }
}

/// The field of the endpoint editor behind another.
pub open spec fn api_field_after(f: ApiField) -> ApiField {
    match f {
        ApiField::Model => ApiField::BaseUrl,
        ApiField::BaseUrl => ApiField::ApiKey,
        ApiField::ApiKey => ApiField::Model,
    }
}

/// The field of the endpoint editor before another.
pub open spec fn api_field_before(f: ApiField) -> ApiField {
    match f {
        ApiField::Model => ApiField::ApiKey,
        ApiField::BaseUrl => ApiField::Model,
        ApiField::ApiKey => ApiField::BaseUrl,
    }
}

fn next_api_field(f: ApiField) -> (r: ApiField)
    ensures
        r == api_field_after(f),
{
    match f {
        ApiField::Model => ApiField::BaseUrl,
        ApiField::BaseUrl => ApiField::ApiKey,
        ApiField::ApiKey => ApiField::Model,
    }
}

fn prev_api_field(f: ApiField) -> (r: ApiField)
    ensures
        r == api_field_before(f),
{
    match f {
        ApiField::Model => ApiField::ApiKey,
        ApiField::BaseUrl => ApiField::Model,
        ApiField::ApiKey => ApiField::BaseUrl,
    }
}

/// The browser's choices: its own box, which stays, and what it loads is kept.
pub open spec fn browser_how(net: Seq<char>, env: bool) -> HowV {
    HowV { net, env, placement: PlacementV::Reuse("BROWSER"@), webcap: true, webfilter: true }
}

/// The query that was typed: one word is looked for in names and values, two are a name and a
/// value.
pub open spec fn typed_query(buf: Seq<char>) -> (Seq<char>, Seq<char>, bool) {
    let ws = words(buf);
    let a = if ws.len() > 0 { ws[0] } else { Seq::empty() };
    let b = if ws.len() > 1 { ws[1] } else { Seq::empty() };
    if a.len() > 0 && b.len() == 0 { (a, a, true) } else { (a, b, false) }
}

impl App {
    /// What a key of the confirmation dialog changes.
    pub open spec fn confirm_key_v(self, prompt: Seq<char>, action: ConfirmAction, code: KeyCode, post: App) -> bool {
        match confirm_of(code) {
            Some(ConfirmKey::Yes) => self.confirm_v(action, post),
            Some(ConfirmKey::No) => self.says(post, "cancelled"@),
            None => self.asks(ModalV::Confirm { prompt, action }, post),
        }
    }

    fn confirm_modal(&mut self, prompt: String, action: ConfirmAction, code: KeyCode)
        ensures
            old(self).confirm_key_v(prompt@, action, code, *final(self)),
    {
        match confirm_key(code) {
            Some(ConfirmKey::Yes) => {
                self.run_confirm(action);
            },
            Some(ConfirmKey::No) => {
                self.say("cancelled");
            },
            None => {
                self.ui.modal = Some(Modal::Confirm { prompt, action });
            },
        }
    }

    /// What a key of the filter editor changes.
    pub open spec fn search_key_v(
        self,
        view: FilterView,
        rows: Seq<ClauseV>,
        sel: int,
        field: ClauseField,
        code: KeyCode,
        mods: Mods,
        post: App,
    ) -> bool {
        if (mods.ctrl && code == KeyCode::Char('s')) || code == KeyCode::Enter {
            self.commit_filter_v(view, rows, post)
        } else if code == KeyCode::Esc {
            self.says(post, "filter unchanged"@)
        } else {
            self.asks(search_edited(view, rows, sel, field, code), post)
        }
    }

    fn search_modal(&mut self, view: FilterView, rows: Vec<ClauseRow>, sel: usize, field: ClauseField, code: KeyCode, mods: Mods)
        ensures
            old(self).search_key_v(view, rows_v(rows@), sel as int, field, code, mods, *final(self)),
    {
        if (mods.ctrl && code == KeyCode::Char('s')) || code == KeyCode::Enter {
            self.commit_filter(view, &rows);
        } else if code == KeyCode::Esc {
            self.say("filter unchanged");
        } else {
            self.ui.modal = Some(edit_search(view, rows, sel, field, code));
        }
    }

    /// What a key of the rule form changes.
    pub open spec fn rule_key_v(self, buf: Seq<char>, editing: Option<usize>, code: KeyCode, post: App) -> bool {
        match code {
            KeyCode::Enter => self.commit_rule_v(buf, editing, post),
            KeyCode::Esc => self.says(post, "rule edit cancelled"@),
            _ => self.asks(ModalV::RuleForm { buf: edited(buf, code), editing }, post),
        }
    }

    fn rule_modal(&mut self, buf: String, editing: Option<usize>, code: KeyCode)
        ensures
            old(self).rule_key_v(buf@, editing, code, *final(self)),
    {
        match code {
            KeyCode::Enter => {
                self.commit_rule(buf.as_str(), editing);
            },
            KeyCode::Esc => {
                self.say("rule edit cancelled");
            },
            _ => {
                let buf: String = edit(buf, code);
                self.ui.modal = Some(Modal::RuleForm { buf, editing });
            },
        }
    }

    /// What a query for variables that was typed changes.
    pub open spec fn query_v(self, buf: Seq<char>, post: App) -> bool {
        let q = typed_query(buf);
        exists|mid: App| #[trigger]
            mid.load_vars_v(post) && mid.side.vars.query.0@ == q.0 && mid.side.vars.query.1@ == q.1 && mid == (App {
                side: (Side {
                    vars: (Vars { query: mid.side.vars.query, any: q.2, ..self.side.vars }),
                    ..self.side
                }),
                ..self
            })
    }

    fn query_vars(&mut self, buf: &str)
        ensures
            old(self).query_v(buf@, *final(self)),
    {
        let ws: Vec<String> = split_words(buf);
        let ghost v = words(buf@);
        assert(strs(ws@).len() == ws@.len());
        let a: String = if ws.len() > 0 {
            assert(v[0] == ws@[0]@);
            ws[0].clone()
        } else {
            let s: String = String::new();
            assert(s@ =~= Seq::<char>::empty());
            s
        };
        let b: String = if ws.len() > 1 {
            assert(v[1] == ws@[1]@);
            ws[1].clone()
        } else {
            let s: String = String::new();
            assert(s@ =~= Seq::<char>::empty());
            s
        };
        let any: bool = !a.as_str().is_empty() && b.as_str().is_empty();
        self.side.vars.any = any;
        if any {
            self.side.vars.query = (a.clone(), a);
        } else {
            self.side.vars.query = (a, b);
        }
        let ghost mid = *self;
        self.load_vars();
        assert(mid.load_vars_v(*self));
    }

    /// What a key of the query for variables changes.
    pub open spec fn var_key_v(self, buf: Seq<char>, code: KeyCode, post: App) -> bool {
        match code {
            KeyCode::Enter => self.query_v(buf, post),
            KeyCode::Esc => post == self,
            _ => self.asks(ModalV::VarQuery { buf: edited(buf, code) }, post),
        }
    }

    fn var_modal(&mut self, buf: String, code: KeyCode)
        ensures
            old(self).var_key_v(buf@, code, *final(self)),
    {
        match code {
            KeyCode::Enter => {
                self.query_vars(buf.as_str());
            },
            KeyCode::Esc => {},
            _ => {
                let buf: String = edit(buf, code);
                self.ui.modal = Some(Modal::VarQuery { buf });
            },
        }
    }

    /// What a key of the command prompt changes.
    pub open spec fn cmd_key_v(self, buf: Seq<char>, code: KeyCode, post: App) -> bool {
        match code {
            KeyCode::Enter => self.open_pty_v(split_words_of(buf), post),
            KeyCode::Esc => self.says(post, "pty cancelled"@),
            _ => self.asks(ModalV::PtyCmd { buf: edited(buf, code) }, post),
        }
    }

    fn cmd_modal(&mut self, buf: String, code: KeyCode)
        ensures
            old(self).cmd_key_v(buf@, code, *final(self)),
    {
        match code {
            KeyCode::Enter => {
                self.open_pty(shell_split(buf.as_str()));
            },
            KeyCode::Esc => {
                self.say("pty cancelled");
            },
            _ => {
                let buf: String = edit(buf, code);
                self.ui.modal = Some(Modal::PtyCmd { buf });
            },
        }
    }

    /// What a key of the address prompt changes.
    pub open spec fn browser_key_v(self, buf: Seq<char>, spki: Seq<char>, code: KeyCode, post: App) -> bool {
        match code {
            KeyCode::Enter => self.open_pty_v(
                launch_words(TargetV::Browser(buf, Some(spki)), browser_how(self.net(), self.jobs.launch.env)),
                post,
            ),
            KeyCode::Esc => self.says(post, "browser cancelled"@),
            _ => self.asks(ModalV::BrowserUrl { buf: edited(buf, code), spki }, post),
        }
    }

    fn browser_modal(&mut self, buf: String, spki: String, code: KeyCode)
        ensures
            old(self).browser_key_v(buf@, spki@, code, *final(self)),
    {
        match code {
            KeyCode::Enter => {
                let how: How = How {
                    net: own(crate::app::effective_net(self)),
                    env: self.jobs.launch.env,
                    placement: Placement::Reuse(own("BROWSER")),
                    webcap: true,
                    webfilter: true,
                };
                let argv: Vec<String> = build_launch(&LaunchTarget::Browser { url: buf, spki: Some(spki) }, &how);
                self.open_pty(argv);
            },
            KeyCode::Esc => {
                self.say("browser cancelled");
            },
            _ => {
                let buf: String = edit(buf, code);
                self.ui.modal = Some(Modal::BrowserUrl { buf, spki });
            },
        }
    }

    /// What the entry of a menu that the cursor is on changes.
    pub open spec fn chosen_v(self, items: Seq<ItemV>, sel: int, post: App) -> bool {
        if 0 <= sel < items.len() { self.action_v(items[sel].action, post) } else { post == self }
    }

    fn choose_item(&mut self, items: &Vec<ActionItem>, sel: usize)
        ensures
            old(self).chosen_v(items_v(items@), sel as int, *final(self)),
    {
        assert(items_v(items@).len() == items@.len());
        if sel < items.len() {
            assert(items_v(items@)[sel as int].action == items@[sel as int].action);
            let a: Action = items[sel].action;
            run_action(self, a);
        }
    }

    /// What a key of a menu changes.
    pub open spec fn menu_key_v(self, title: Seq<char>, items: Seq<ItemV>, sel: int, code: KeyCode, post: App) -> bool {
        match code {
            KeyCode::Esc => self.says(post, "menu cancelled"@),
            KeyCode::Enter => self.chosen_v(items, sel, post),
            _ => self.asks(
                ModalV::ActionMenu { title, items, sel: menu_cursor(sel, items.len() as int, code) },
                post,
            ),
        }
    }

    fn menu_modal(&mut self, title: String, items: Vec<ActionItem>, sel: usize, code: KeyCode)
        ensures
            old(self).menu_key_v(title@, items_v(items@), sel as int, code, *final(self)),
    {
        assert(items_v(items@).len() == items@.len());
        match code {
            KeyCode::Esc => {
                self.say("menu cancelled");
            },
            KeyCode::Enter => {
                self.choose_item(&items, sel);
            },
            _ => {
                let sel: usize = move_in_menu(sel, items.len(), code);
                self.ui.modal = Some(Modal::ActionMenu { title, items, sel });
            },
        }
    }

    /// What a key of the launcher changes.
    pub open spec fn launcher_key_v(self, items: Seq<ItemV>, sel: int, code: KeyCode, post: App) -> bool {
        let l = self.jobs.launch;
        match code {
            KeyCode::Esc => self.says(post, "launcher cancelled"@),
            KeyCode::Enter => self.chosen_v(items, sel, post),
            _ => {
                let net = code == KeyCode::Char('n') || code == KeyCode::Char('N');
                let env = code == KeyCode::Char('e') || code == KeyCode::Char('E');
                let chosen = Launch {
                    net: if net { net_after(l.net) } else { l.net },
                    env: if env { !l.env } else { l.env },
                    ..l
                };
                (App { jobs: (Jobs { launch: chosen, ..self.jobs }), ..self }).asks(
                    ModalV::Launcher { items, sel: menu_cursor(sel, items.len() as int, code) },
                    post,
                )
            },
        }
    }

    fn launcher_modal(&mut self, items: Vec<ActionItem>, sel: usize, code: KeyCode)
        ensures
            old(self).launcher_key_v(items_v(items@), sel as int, code, *final(self)),
    {
        assert(items_v(items@).len() == items@.len());
        match code {
            KeyCode::Esc => {
                self.say("launcher cancelled");
            },
            KeyCode::Enter => {
                self.choose_item(&items, sel);
            },
            _ => {
                if code == KeyCode::Char('n') || code == KeyCode::Char('N') {
                    self.jobs.launch.net = self.jobs.launch.net.next();
                }
                if code == KeyCode::Char('e') || code == KeyCode::Char('E') {
                    self.jobs.launch.env = !self.jobs.launch.env;
                }
                let sel: usize = move_in_menu(sel, items.len(), code);
                self.ui.modal = Some(Modal::Launcher { items, sel });
            },
        }
    }

    /// What following an entry of the image picker changes.
    pub open spec fn pick_v(self, crumbs: Seq<Seq<char>>, stack: Seq<LevelV>, post: App) -> bool {
        match picked(stack) {
            Some(p) => match p.next {
                NextV::Menu(items) => self.asks(
                    ModalV::ImagePicker { crumbs: crumbs.push(p.label), stack: stack.push(LevelV { items, sel: 0 }) },
                    post,
                ),
                NextV::Pull(rf) => self.start_image_load_v(rf, post),
                NextV::RunLocal(name) => self.launch_v(TargetV::Image(name), PlacementV::New, post),
                NextV::EnterRef(prefix) => self.asks(ModalV::ImageRef { buf: prefix }, post),
            },
            None => self.asks(ModalV::ImagePicker { crumbs, stack }, post),
        }
    }

    fn follow_pick(&mut self, crumbs: Vec<String>, stack: Vec<PickLevel>)
        ensures
            old(self).pick_v(strs(crumbs@), levels_v(stack@), *final(self)),
    {
        match pick(&stack) {
            Some(p) => {
                let label: String = p.label;
                match p.next {
                    PickNext::Menu(items) => {
                        let ghost c = strs(crumbs@);
                        let ghost s = levels_v(stack@);
                        assert(next_v(PickNext::Menu(items))->Menu_0 =~= picks(items@));
                        let mut crumbs: Vec<String> = crumbs;
                        let mut stack: Vec<PickLevel> = stack;
                        crumbs.push(label);
                        stack.push(PickLevel { items, sel: 0 });
                        assert(strs(crumbs@) =~= c.push(label@));
                        assert(levels_v(stack@) =~= s.push(LevelV { items: picks(items@), sel: 0 }));
                        self.ui.modal = Some(Modal::ImagePicker { crumbs, stack });
                    },
                    PickNext::Pull(rf) => {
                        self.start_image_load(rf);
                    },
                    PickNext::RunLocal(name) => {
                        self.launch(&LaunchTarget::Image(name), Placement::New);
                    },
                    PickNext::EnterRef(prefix) => {
                        self.ui.modal = Some(Modal::ImageRef { buf: prefix });
                    },
                }
            },
            None => {
                self.ui.modal = Some(Modal::ImagePicker { crumbs, stack });
            },
        }
    }

    /// What a key of the image picker changes.
    pub open spec fn image_key_v(self, crumbs: Seq<Seq<char>>, stack: Seq<LevelV>, code: KeyCode, post: App) -> bool {
        match code {
            KeyCode::Esc => self.says(post, "image picker cancelled"@),
            KeyCode::Backspace | KeyCode::Left => if stack.len() > 1 {
                self.asks(
                    ModalV::ImagePicker {
                        crumbs: if crumbs.len() > 0 { crumbs.drop_last() } else { crumbs },
                        stack: stack.drop_last(),
                    },
                    post,
                )
            } else {
                self.says(post, "image picker cancelled"@)
            },
            KeyCode::Enter | KeyCode::Right => self.pick_v(crumbs, stack, post),
            _ => self.asks(ModalV::ImagePicker { crumbs, stack: level_moved(stack, code) }, post),
        }
    }

    fn image_modal(&mut self, crumbs: Vec<String>, stack: Vec<PickLevel>, code: KeyCode)
        ensures
            old(self).image_key_v(strs(crumbs@), levels_v(stack@), code, *final(self)),
    {
        let ghost c = strs(crumbs@);
        let ghost s = levels_v(stack@);
        assert(c.len() == crumbs@.len());
        assert(s.len() == stack@.len());
        match code {
            KeyCode::Esc => {
                self.say("image picker cancelled");
            },
            KeyCode::Backspace | KeyCode::Left => {
                if stack.len() > 1 {
                    let mut crumbs: Vec<String> = crumbs;
                    let mut stack: Vec<PickLevel> = stack;
                    let _ = stack.pop();
                    let _ = crumbs.pop();
                    assert(levels_v(stack@) =~= s.drop_last());
                    assert(strs(crumbs@) =~= if c.len() > 0 { c.drop_last() } else { c });
                    self.ui.modal = Some(Modal::ImagePicker { crumbs, stack });
                } else {
                    self.say("image picker cancelled");
                }
            },
            KeyCode::Enter | KeyCode::Right => {
                self.follow_pick(crumbs, stack);
            },
            _ => {
                let stack: Vec<PickLevel> = move_in_level(stack, code);
                self.ui.modal = Some(Modal::ImagePicker { crumbs, stack });
            },
        }
    }

    /// What a key of the prompt for an image changes.
    pub open spec fn ref_key_v(self, buf: Seq<char>, code: KeyCode, post: App) -> bool {
        match code {
            KeyCode::Enter => if trimmed(buf).len() == 0 {
                self.says(post, "image reference cancelled"@)
            } else {
                self.start_image_load_v(trimmed(buf), post)
            },
            KeyCode::Esc => self.says(post, "image reference cancelled"@),
            _ => self.asks(ModalV::ImageRef { buf: edited(buf, code) }, post),
        }
    }

    fn ref_modal(&mut self, buf: String, code: KeyCode)
        ensures
            old(self).ref_key_v(buf@, code, *final(self)),
    {
        match code {
            KeyCode::Enter => {
                let rf: String = trim(buf.as_str());
                if rf.as_str().is_empty() {
                    self.say("image reference cancelled");
                } else {
                    self.start_image_load(rf);
                }
            },
            KeyCode::Esc => {
                self.say("image reference cancelled");
            },
            _ => {
                let buf: String = edit(buf, code);
                self.ui.modal = Some(Modal::ImageRef { buf });
            },
        }
    }

    /// What a key of the prompt for a task changes.
    pub open spec fn task_key_v(self, box_name: Seq<char>, session: Seq<char>, buf: Seq<char>, code: KeyCode, post: App) -> bool {
        match code {
            KeyCode::Enter => if trimmed(buf).len() == 0 {
                exists|mid: App| #[trigger]
                    self.says(mid, "type a task for the agent (Esc to cancel)"@) && mid.asks(
                        ModalV::OaitaTask { box_name, session, buf },
                        post,
                    )
            } else {
                self.launch_v(TargetV::Ai(trimmed(buf)), PlacementV::On(box_name), post)
            },
            KeyCode::Esc => self.says(post, "agent session cancelled"@),
            _ => self.asks(ModalV::OaitaTask { box_name, session, buf: edited(buf, code) }, post),
        }
    }

    fn task_modal(&mut self, box_name: String, session: String, buf: String, code: KeyCode)
        ensures
            old(self).task_key_v(box_name@, session@, buf@, code, *final(self)),
    {
        match code {
            KeyCode::Enter => {
                let task: String = trim(buf.as_str());
                if task.as_str().is_empty() {
                    self.say("type a task for the agent (Esc to cancel)");
                    let ghost mid = *self;
                    assert(old(self).says(mid, "type a task for the agent (Esc to cancel)"@));
                    self.ui.modal = Some(Modal::OaitaTask { box_name, session, buf });
                } else {
                    self.launch(&LaunchTarget::Ai { task }, Placement::On(box_name));
                }
            },
            KeyCode::Esc => {
                self.say("agent session cancelled");
            },
            _ => {
                let buf: String = edit(buf, code);
                self.ui.modal = Some(Modal::OaitaTask { box_name, session, buf });
            },
        }
    }

    /// What a key of the model picker changes. Behind the models stands an entry for an address.
    pub open spec fn model_key_v(
        self,
        models: Seq<ModelV>,
        source: Seq<char>,
        sel: int,
        loading: bool,
        code: KeyCode,
        post: App,
    ) -> bool {
        if code == KeyCode::Esc {
            self.says(post, "model picker cancelled"@)
        } else if loading {
            self.asks(ModalV::ModelPicker { models, source, sel, loading }, post)
        } else if code == KeyCode::Enter {
            if sel < models.len() {
                self.open_pty_v(self.local_model(Some(models[sel].url)), post)
            } else {
                self.asks(ModalV::ModelUrl { buf: Seq::empty() }, post)
            }
        } else {
            self.asks(
                ModalV::ModelPicker { models, source, sel: menu_cursor(sel, models.len() as int + 1, code), loading },
                post,
            )
        }
    }

    fn model_modal(&mut self, models: Vec<ModelRow>, source: String, sel: usize, loading: bool, code: KeyCode)
        ensures
            old(self).model_key_v(models_v(models@), source@, sel as int, loading, code, *final(self)),
    {
        assert(models_v(models@).len() == models@.len());
        if code == KeyCode::Esc {
            self.say("model picker cancelled");
        } else if loading {
            self.ui.modal = Some(Modal::ModelPicker { models, source, sel, loading });
        } else if code == KeyCode::Enter {
            if sel < models.len() {
                assert(models_v(models@)[sel as int].url == models@[sel as int].url@);
                let url: String = models[sel].url.clone();
                let argv: Vec<String> = self.local_model_argv(Some(url));
                self.open_pty(argv);
            } else {
                let buf: String = String::new();
                assert(buf@ =~= Seq::<char>::empty());
                self.ui.modal = Some(Modal::ModelUrl { buf });
            }
        } else {
            let sel: usize = move_in_models(sel, models.len(), code);
            self.ui.modal = Some(Modal::ModelPicker { models, source, sel, loading });
        }
    }

    /// What a key of the prompt for the address of a model changes.
    pub open spec fn url_key_v(self, buf: Seq<char>, code: KeyCode, post: App) -> bool {
        match code {
            KeyCode::Enter => if trimmed(buf).len() == 0 {
                self.says(post, "model URL cancelled"@)
            } else {
                self.open_pty_v(self.local_model(Some(trimmed(buf))), post)
            },
            KeyCode::Esc => self.says(post, "model URL cancelled"@),
            _ => self.asks(ModalV::ModelUrl { buf: edited(buf, code) }, post),
        }
    }

    fn url_modal(&mut self, buf: String, code: KeyCode)
        ensures
            old(self).url_key_v(buf@, code, *final(self)),
    {
        match code {
            KeyCode::Enter => {
                let url: String = trim(buf.as_str());
                if url.as_str().is_empty() {
                    self.say("model URL cancelled");
                } else {
                    let argv: Vec<String> = self.local_model_argv(Some(url));
                    self.open_pty(argv);
                }
            },
            KeyCode::Esc => {
                self.say("model URL cancelled");
            },
            _ => {
                let buf: String = edit(buf, code);
                self.ui.modal = Some(Modal::ModelUrl { buf });
            },
        }
    }

    /// The endpoint editor with the text of its field after a key.
    pub open spec fn api_edited(
        base_url: Seq<char>,
        model: Seq<char>,
        api_key: Seq<char>,
        slot: ApiField,
        result: Seq<char>,
        testing: bool,
        code: KeyCode,
    ) -> ModalV {
        ModalV::ApiConfig {
            base_url: if slot == ApiField::BaseUrl { edited(base_url, code) } else { base_url },
            model: if slot == ApiField::Model { edited(model, code) } else { model },
            api_key: if slot == ApiField::ApiKey { edited(api_key, code) } else { api_key },
            slot,
            result,
            testing,
        }
    }

    /// What saving the endpoint changes: without a model the editor stays open.
    pub open spec fn api_save_v(self, m: ModalV, base_url: Seq<char>, model: Seq<char>, api_key: Seq<char>, post: App) -> bool {
        if trimmed(model).len() > 0 {
            self.planned(seq![StepV::WriteApiConfig(endpoint_file(base_url, model, api_key))], post)
        } else {
            exists|mid: App| #[trigger]
                self.says(mid, "model is required — fill it before saving"@) && mid.asks(m, post)
        }
    }

    /// What a key of the endpoint editor changes.
    pub open spec fn api_key_v(
        self,
        base_url: Seq<char>,
        model: Seq<char>,
        api_key: Seq<char>,
        slot: ApiField,
        result: Seq<char>,
        testing: bool,
        code: KeyCode,
        mods: Mods,
        post: App,
    ) -> bool {
        let same = ModalV::ApiConfig { base_url, model, api_key, slot, result, testing };
        match code {
            KeyCode::Esc => self.says(post, "api config cancelled"@),
            KeyCode::Tab | KeyCode::Down => self.asks(
                ModalV::ApiConfig { base_url, model, api_key, slot: api_field_after(slot), result, testing },
                post,
            ),
            KeyCode::BackTab | KeyCode::Up => self.asks(
                ModalV::ApiConfig { base_url, model, api_key, slot: api_field_before(slot), result, testing },
                post,
            ),
            KeyCode::Enter => self.api_save_v(same, base_url, model, api_key, post),
            _ => if mods.ctrl && code == KeyCode::Char('t') {
                exists|mid: App| #[trigger]
                    mid.asks(
                        ModalV::ApiConfig { base_url, model, api_key, slot, result: Seq::empty(), testing: true },
                        post,
                    ) && mid == (App { jobs: (Jobs { probe: true, ..self.jobs }), todo: mid.todo, ..self }) && mid.plan()
                        == seq![StepV::Probe(base_url, model, api_key)] + self.plan()
            } else if mods.ctrl && code == KeyCode::Char('s') {
                self.api_save_v(same, base_url, model, api_key, post)
            } else {
                self.asks(App::api_edited(base_url, model, api_key, slot, result, testing, code), post)
            },
        }
    }

    fn api_save(
        &mut self,
        base_url: String,
        model: String,
        api_key: String,
        slot: ApiField,
        result: String,
        testing: bool,
    )
        ensures
            old(self).api_save_v(
                ModalV::ApiConfig {
                    base_url: base_url@,
                    model: model@,
                    api_key: api_key@,
                    slot,
                    result: result@,
                    testing,
                },
                base_url@,
                model@,
                api_key@,
                *final(self),
            ),
    {
        let ghost orig = *self;
        if !self.save_api_config(base_url.as_str(), model.as_str(), api_key.as_str()) {
            let ghost mid = *self;
            assert(orig.says(mid, "model is required — fill it before saving"@));
            self.ui.modal = Some(Modal::ApiConfig { base_url, model, api_key, slot, result, testing });
        }
    }

    fn api_modal(
        &mut self,
        base_url: String,
        model: String,
        api_key: String,
        slot: ApiField,
        result: String,
        testing: bool,
        code: KeyCode,
        mods: Mods,
    )
        ensures
            old(self).api_key_v(base_url@, model@, api_key@, slot, result@, testing, code, mods, *final(self)),
    {
        match code {
            KeyCode::Esc => {
                self.say("api config cancelled");
            },
            KeyCode::Tab | KeyCode::Down => {
                let slot: ApiField = next_api_field(slot);
                self.ui.modal = Some(Modal::ApiConfig { base_url, model, api_key, slot, result, testing });
            },
            KeyCode::BackTab | KeyCode::Up => {
                let slot: ApiField = prev_api_field(slot);
                self.ui.modal = Some(Modal::ApiConfig { base_url, model, api_key, slot, result, testing });
            },
            KeyCode::Enter => {
                self.api_save(base_url, model, api_key, slot, result, testing);
            },
            _ => {
                if mods.ctrl && code == KeyCode::Char('t') {
                    self.start_api_probe(base_url.clone(), model.clone(), api_key.clone());
                    let ghost mid = *self;
                    let result: String = String::new();
                    assert(result@ =~= Seq::<char>::empty());
                    self.ui.modal = Some(Modal::ApiConfig { base_url, model, api_key, slot, result, testing: true });
                    assert(mid.asks(
                        ModalV::ApiConfig {
                            base_url: base_url@,
                            model: model@,
                            api_key: api_key@,
                            slot,
                            result: Seq::empty(),
                            testing: true,
                        },
                        *self,
                    ));
                } else if mods.ctrl && code == KeyCode::Char('s') {
                    self.api_save(base_url, model, api_key, slot, result, testing);
                } else {
                    let m: Modal = match slot {
                        ApiField::Model => {
                            let model: String = edit(model, code);
                            Modal::ApiConfig { base_url, model, api_key, slot, result, testing }
                        },
                        ApiField::BaseUrl => {
                            let base_url: String = edit(base_url, code);
                            Modal::ApiConfig { base_url, model, api_key, slot, result, testing }
                        },
                        ApiField::ApiKey => {
                            let api_key: String = edit(api_key, code);
                            Modal::ApiConfig { base_url, model, api_key, slot, result, testing }
                        },
                    };
                    self.ui.modal = Some(m);
                }
            },
        }
    }

    /// The state without a dialog.
    pub open spec fn without_modal(self) -> App {
        App { ui: (Ui { modal: None, ..self.ui }), ..self }
    }

    /// What a key changes while a dialog is open.
    pub open spec fn modal_key_v(self, code: KeyCode, mods: Mods, post: App) -> bool {
        let s = self.without_modal();
        match modal_v(self.ui.modal) {
            None => post == self,
            Some(m) => match m {
                ModalV::Confirm { prompt, action } => s.confirm_key_v(prompt, action, code, post),
                ModalV::Search { view, rows, sel, field } => s.search_key_v(view, rows, sel, field, code, mods, post),
                ModalV::RuleForm { buf, editing } => s.rule_key_v(buf, editing, code, post),
                ModalV::VarQuery { buf } => s.var_key_v(buf, code, post),
                ModalV::PtyCmd { buf } => s.cmd_key_v(buf, code, post),
                ModalV::BrowserUrl { buf, spki } => s.browser_key_v(buf, spki, code, post),
                ModalV::ActionMenu { title, items, sel } => s.menu_key_v(title, items, sel, code, post),
                ModalV::Launcher { items, sel } => s.launcher_key_v(items, sel, code, post),
                ModalV::ImagePicker { crumbs, stack } => s.image_key_v(crumbs, stack, code, post),
                ModalV::ImageRef { buf } => s.ref_key_v(buf, code, post),
                ModalV::OaitaTask { box_name, session, buf } => s.task_key_v(box_name, session, buf, code, post),
                ModalV::ModelPicker { models, source, sel, loading } => s.model_key_v(
                    models,
                    source,
                    sel,
                    loading,
                    code,
                    post,
                ),
                ModalV::ModelUrl { buf } => s.url_key_v(buf, code, post),
                ModalV::ApiConfig { base_url, model, api_key, slot, result, testing } => s.api_key_v(
                    base_url,
                    model,
                    api_key,
                    slot,
                    result,
                    testing,
                    code,
                    mods,
                    post,
                ),
            },
        }
    }
}

/// Takes in a key while a dialog is open: the dialog gets it.
pub fn handle_modal_key(app: &mut App, code: KeyCode, mods: Mods)
    ensures
        old(app).modal_key_v(code, mods, *final(app)),
{
    let m: Modal = match app.ui.modal.take() {
        Some(m) => m,
        None => {
            return;
        },
    };
    match m {
        Modal::Confirm { prompt, action } => app.confirm_modal(prompt, action, code),
        Modal::Search { view, rows, sel, field } => app.search_modal(view, rows, sel, field, code, mods),
        Modal::RuleForm { buf, editing } => app.rule_modal(buf, editing, code),
        Modal::VarQuery { buf } => app.var_modal(buf, code),
        Modal::PtyCmd { buf } => app.cmd_modal(buf, code),
        Modal::BrowserUrl { buf, spki } => app.browser_modal(buf, spki, code),
        Modal::ActionMenu { title, items, sel } => app.menu_modal(title, items, sel, code),
        Modal::Launcher { items, sel } => app.launcher_modal(items, sel, code),
        Modal::ImagePicker { crumbs, stack } => app.image_modal(crumbs, stack, code),
        Modal::ImageRef { buf } => app.ref_modal(buf, code),
        Modal::OaitaTask { box_name, session, buf } => app.task_modal(box_name, session, buf, code),
        Modal::ModelPicker { models, source, sel, loading } => app.model_modal(models, source, sel, loading, code),
        Modal::ModelUrl { buf } => app.url_modal(buf, code),
        Modal::ApiConfig { base_url, model, api_key, slot, result, testing } => app.api_modal(
            base_url,
            model,
            api_key,
            slot,
            result,
            testing,
            code,
            mods,
        ),
    }
}

/// A question is not answered by a key that is none of its own: it stays, and nothing is done.
pub proof fn law_other_keys_answer_no_question(a: App, b: App, code: KeyCode, mods: Mods)
    requires
        modal_v(a.ui.modal) matches Some(ModalV::Confirm { .. }),
        confirm_of(code) is None,
        a.modal_key_v(code, mods, b),
    ensures
        modal_v(b.ui.modal) == modal_v(a.ui.modal),
        b.todo == a.todo,
        b.boxes == a.boxes,
{
}

/// Esc closes every dialog, and nothing is done.
pub proof fn law_esc_closes_every_dialog(a: App, b: App, mods: Mods)
    requires
        a.ui.modal is Some,
        a.modal_key_v(KeyCode::Esc, mods, b),
    ensures
        b.ui.modal is None,
        b.todo == a.todo,
        b.boxes == a.boxes,
        b.side == a.side,
{
}

/// A character that is typed is taken back by Backspace.
pub proof fn law_backspace_undoes_typing(buf: Seq<char>, c: char)
    ensures
        edited(edited(buf, KeyCode::Char(c)), KeyCode::Backspace) == buf,
{
    assert(buf.push(c).drop_last() =~= buf);
}

/// Backspace leads back to the level of the image picker that an entry was followed from.
pub proof fn law_backspace_undoes_descending(
    a: App,
    b: App,
    c: App,
    crumbs: Seq<Seq<char>>,
    stack: Seq<LevelV>,
    mods: Mods,
)
    requires
        modal_v(a.ui.modal) == Some(ModalV::ImagePicker { crumbs, stack }),
        stack.len() > 0,
        picked(stack) matches Some(p) && p.next is Menu,
        a.modal_key_v(KeyCode::Enter, mods, b),
        b.modal_key_v(KeyCode::Backspace, mods, c),
    ensures
        modal_v(c.ui.modal) == modal_v(a.ui.modal),
        c.todo == a.todo,
{
    let p = picked(stack)->0;
    let items = p.next->Menu_0;
    assert(crumbs.push(p.label).drop_last() =~= crumbs);
    assert(stack.push(LevelV { items, sel: 0 }).drop_last() =~= stack);
}

} // verus!
