//! The file rules: the list, and the one at the cursor taken apart; and the help.

use vstd::prelude::*;

use crate::app::App;
use crate::keys::{confirm_keys, pane_action_keys, pane_keys, ActionKey, ConfirmKey, Key, PaneKey};
#[allow(unused_imports)]
use crate::keys::{action_keys_v, action_table, key_label, pane_keys_v, pane_table, ActionKeyV, PaneKeyV};
use crate::rules::{Clause, Join};
#[allow(unused_imports)]
use crate::rules::{clauses, ClauseV};
use crate::style::{bold, cursor, dim, fg, fg_bold, plain, raw, styled, Color, Line, Text};
#[allow(unused_imports)]
use crate::style::{raw_line, styled_line, LineV};
use crate::text::{join, own, pad_right, same, starts_with, trim};
#[allow(unused_imports)]
use crate::text::{has_prefix, joined, padr, strs, trimmed};

verus! {

/// What a rule does with what it matches.
#[derive(Clone, Copy, Debug, PartialEq, Eq, Structural)]
pub enum RuleAction {
    Apply,
    Discard,
    Passthrough,
    Ask,
}

/// A rule taken apart.
#[derive(Debug)]
pub struct FileRule {
    pub action: RuleAction,
    pub clauses: Vec<Clause>,
}

/// What a rule is.
pub struct RuleV {
    pub action: RuleAction,
    pub clauses: Seq<ClauseV>,
}

impl FileRule {
    pub open spec fn view(&self) -> RuleV {
        RuleV { action: self.action, clauses: clauses(self.clauses@) }
    }
}

/// What an optional rule is.
pub open spec fn opt_rule(o: Option<FileRule>) -> Option<RuleV> {
    match o {
        Some(r) => Some(r@),
        None => None,
    }
}

/// The name and the colour of what a rule does.
pub open spec fn action_name(a: RuleAction) -> (Seq<char>, Color) {
    match a {
        RuleAction::Apply => ("APPLY"@, Color::Green),
        RuleAction::Discard => ("DISCARD"@, Color::Red),
        RuleAction::Passthrough => ("PASSTHROUGH"@, Color::Cyan),
        RuleAction::Ask => ("ASK"@, Color::Yellow),
    }
}

fn name_of_action(a: RuleAction) -> (r: (&'static str, Color))
    ensures
        (r.0@, r.1) == action_name(a),
{
    match a {
        RuleAction::Apply => ("APPLY", Color::Green),
        RuleAction::Discard => ("DISCARD", Color::Red),
        RuleAction::Passthrough => ("PASSTHROUGH", Color::Cyan),
        RuleAction::Ask => ("ASK", Color::Yellow),
    }
}

/// A clause of a rule; the first has nothing to be joined to.
pub open spec fn clause_line(c: ClauseV, is_first: bool) -> LineV {
    let join = if is_first {
        ""@
    } else {
        match c.join {
            Join::And => "and "@,
            Join::Or => "or "@,
        }
    };
    LineV::new().sp(
        "  "@ + join + (if c.enabled { ""@ } else { "off "@ }) + (if c.negate { "not "@ } else { ""@ }),
        dim(),
    ).sp(c.kind + ":"@ + c.pattern, if c.enabled { plain() } else { dim() })
}

fn clause_row(c: &Clause, is_first: bool) -> (r: Line)
    ensures
        r@ == clause_line(c@, is_first),
{
    let join: &str = if is_first {
        ""
    } else {
        match c.join {
            Join::And => "and ",
            Join::Or => "or ",
        }
    };
    let lead: String = own("  ").concat(join).concat(if c.enabled { "" } else { "off " }).concat(
        if c.negate {
            "not "
        } else {
            ""
        },
    );
    let kp: String = own(c.m.kind.as_str()).concat(":").concat(c.m.pattern.as_str());
    Line::new().add(lead, dim()).add(kp, if c.enabled { plain() } else { dim() })
}

/// The clauses of a rule.
pub open spec fn clause_lines(cs: Seq<ClauseV>) -> Seq<LineV> {
    Seq::new(cs.len(), |i: int| clause_line(cs[i], i == 0))
}

fn add_clauses(out: Text, cs: &Vec<Clause>) -> (r: Text)
    ensures
        r@ == out@ + clause_lines(clauses(cs@)),
{
    let ghost o = out@;
    let ghost all = clause_lines(clauses(cs@));
    let mut t: Text = out;
    assert(o + all.take(0) =~= o);
    let mut i: usize = 0;
    while i < cs.len()
        invariant
            i <= cs@.len(),
            all == clause_lines(clauses(cs@)),
            t@ == o + all.take(i as int),
        decreases cs@.len() - i,
    {
        assert(clauses(cs@)[i as int] == cs@[i as int]@);
        t = t.ln(clause_row(&cs[i], i == 0));
        i += 1;
        assert(t@ =~= o + all.take(i as int));
    }
    assert(all.take(all.len() as int) =~= all);
    t
}

/// What a kind of clause looks at.
pub open spec fn kind_help(k: Seq<char>) -> Seq<char> {
    if k == "path"@ {
        "changed path (extended glob: * ** ? @(a|b) {a,b}; bare = any depth)"@
    } else if k == "box"@ {
        "the box's hierarchical name (same globs as paths)"@
    } else if k == "exe"@ {
        "triggering process's command pathname (path globs)"@
    } else if k == "cwd"@ {
        "triggering process's working directory (path globs)"@
    } else if k == "arg"@ {
        "any one of the triggering process's argv (raw glob)"@
    } else if k == "host"@ {
        "DNS hostname the box dialed (or .X.0.2 reverse if no DNS)"@
    } else if k == "port"@ {
        "TCP destination port (numeric, exact-match patterns like 443)"@
    } else if k == "scheme"@ {
        "http / https / tcp — derived from port at SYN-accept"@
    } else if k == "sni"@ {
        "TLS SNI from the box's ClientHello (HTTPS gate)"@
    } else if k == "http_path"@ {
        "HTTP request path (post-decrypt; only on http/https)"@
    } else if k == "http_method"@ {
        "HTTP method (GET / POST / …) — post-decrypt"@
    } else if k == "http_status"@ {
        "HTTP response status code — post-decrypt"@
    } else if k == "proto"@ {
        "tcp / udp (always tcp for a SYN-time gate today)"@
    } else {
        ""@
    }
}

fn help_of_kind(k: &str) -> (r: &'static str)
    ensures
        r@ == kind_help(k@),
{
    if same(k, "path") {
        "changed path (extended glob: * ** ? @(a|b) {a,b}; bare = any depth)"
    } else if same(k, "box") {
        "the box's hierarchical name (same globs as paths)"
    } else if same(k, "exe") {
        "triggering process's command pathname (path globs)"
    } else if same(k, "cwd") {
        "triggering process's working directory (path globs)"
    } else if same(k, "arg") {
        "any one of the triggering process's argv (raw glob)"
    } else if same(k, "host") {
        "DNS hostname the box dialed (or .X.0.2 reverse if no DNS)"
    } else if same(k, "port") {
        "TCP destination port (numeric, exact-match patterns like 443)"
    } else if same(k, "scheme") {
        "http / https / tcp — derived from port at SYN-accept"
    } else if same(k, "sni") {
        "TLS SNI from the box's ClientHello (HTTPS gate)"
    } else if same(k, "http_path") {
        "HTTP request path (post-decrypt; only on http/https)"
    } else if same(k, "http_method") {
        "HTTP method (GET / POST / …) — post-decrypt"
    } else if same(k, "http_status") {
        "HTTP response status code — post-decrypt"
    } else if same(k, "proto") {
        "tcp / udp (always tcp for a SYN-time gate today)"
    } else {
        ""
    }
}

/// The kinds of the first `n` clauses, each once, in the order in which they first occur.
pub open spec fn kinds_used(cs: Seq<ClauseV>, n: int) -> Seq<Seq<char>>
    decreases n,
{
    if n <= 0 {
        Seq::empty()
    } else {
        let before = kinds_used(cs, n - 1);
        if before.contains(cs[n - 1].kind) { before } else { before.push(cs[n - 1].kind) }
    }
}

/// What the kinds of a rule look at.
pub open spec fn kind_lines(ks: Seq<Seq<char>>) -> Seq<LineV> {
    ks.map_values(|k: Seq<char>| LineV::new().sp(padr(k, 6) + " "@, fg(Color::Cyan)).sp(kind_help(k), dim()))
}

fn used_kinds(cs: &Vec<Clause>) -> (r: Vec<String>)
    ensures
        strs(r@) == kinds_used(clauses(cs@), cs@.len() as int),
{
    let ghost all = clauses(cs@);
    let mut out: Vec<String> = Vec::new();
    let mut i: usize = 0;
    assert(strs(out@) =~= kinds_used(all, 0));
    while i < cs.len()
        invariant
            i <= cs@.len(),
            all == clauses(cs@),
            strs(out@) == kinds_used(all, i as int),
        decreases cs@.len() - i,
    {
        assert(all[i as int] == cs@[i as int]@);
        if !crate::boxes::holds_key(&out, cs[i].m.kind.as_str()) {
            let ghost o = strs(out@);
            out.push(cs[i].m.kind.clone());
            assert(strs(out@) =~= o.push(all[i as int].kind));
        }
        i += 1;
    }
    out
}

fn add_kinds(out: Text, ks: &Vec<String>) -> (r: Text)
    ensures
        r@ == out@ + kind_lines(strs(ks@)),
{
    let ghost o = out@;
    let ghost all = kind_lines(strs(ks@));
    let mut t: Text = out;
    assert(o + all.take(0) =~= o);
    let mut i: usize = 0;
    while i < ks.len()
        invariant
            i <= ks@.len(),
            all == kind_lines(strs(ks@)),
            t@ == o + all.take(i as int),
        decreases ks@.len() - i,
    {
        assert(strs(ks@)[i as int] == ks@[i as int]@);
        let k: &str = ks[i].as_str();
        t = t.ln(Line::new().add(pad_right(k, 6).concat(" "), fg(Color::Cyan)).sp(help_of_kind(k), dim()));
        i += 1;
        assert(t@ =~= o + all.take(i as int));
    }
    assert(all.take(all.len() as int) =~= all);
    t
}

/// What is shown where there is no rule at the cursor.
pub open spec fn no_rule(path: Seq<char>) -> Seq<LineV> {
    seq![
        styled_line("n new · Enter edit · d delete"@, dim()),
        raw_line(""@),
        raw_line("file: "@ + path),
        raw_line(""@),
        raw_line("Rules decide each captured write: apply (keep),"@),
        raw_line("discard (drop), or passthrough. First match wins."@),
    ]
}

/// A rule taken apart.
pub open spec fn rule_detail(r: RuleV) -> Seq<LineV> {
    seq![styled_line(action_name(r.action).0, fg_bold(action_name(r.action).1))] + clause_lines(r.clauses) + seq![
        raw_line(""@),
    ] + kind_lines(kinds_used(r.clauses, r.clauses.len() as int))
}

impl App {
    /// The rule at the cursor: taken apart where it could be, `rule`; the file of the rules is
    /// `path`.
    pub open spec fn rule_detail_pane(self, rule: Option<RuleV>, path: Seq<char>) -> Seq<LineV> {
        if self.side.sel_rule >= self.side.rules@.len() {
            no_rule(path)
        } else {
            match rule {
                Some(r) => rule_detail(r),
                None => seq![styled_line("(unparseable rule)"@, fg(Color::Red))],
            }
        }
    }
}

/// The rule at the cursor: taken apart where it could be, `rule`; the file of the rules is `path`.
pub fn rule_detail_lines(app: &App, rule: &Option<FileRule>, path: &str) -> (r: Text)
    ensures
        r@ == app.rule_detail_pane(opt_rule(*rule), path@),
{
    if app.side.sel_rule >= app.side.rules.len() {
        let p: String = own("file: ").concat(path);
        let t: Text = Text::new().ln(styled("n new · Enter edit · d delete", dim())).ln(raw("")).ln(raw(p.as_str())).ln(
            raw(""),
        ).ln(raw("Rules decide each captured write: apply (keep),")).ln(
            raw("discard (drop), or passthrough. First match wins."),
        );
        assert(t@ =~= no_rule(path@));
        return t;
    }
    match rule {
        None => {
            let t: Text = Text::new().ln(styled("(unparseable rule)", fg(Color::Red)));
            assert(t@ =~= app.rule_detail_pane(opt_rule(*rule), path@));
            t
        },
        Some(r) => {
            let (name, color): (&str, Color) = name_of_action(r.action);
            let t: Text = Text::new().ln(styled(name, fg_bold(color)));
            assert(t@ =~= seq![styled_line(action_name(r.action).0, fg_bold(action_name(r.action).1))]);
            let t: Text = add_clauses(t, &r.clauses);
            let ghost a = t@;
            let t: Text = t.ln(raw(""));
            assert(t@ =~= a + seq![raw_line(""@)]);
            assert(clauses(r.clauses@).len() == r.clauses@.len());
            add_kinds(t, &used_kinds(&r.clauses))
        },
    }
}

/// The colour of a rule in the list.
pub open spec fn rule_color(r: Seq<char>) -> Color {
    if has_prefix(trimmed(r), "discard"@) {
        Color::Red
    } else if has_prefix(trimmed(r), "passthrough"@) {
        Color::Yellow
    } else if has_prefix(trimmed(r), "#"@) || trimmed(r).len() == 0 {
        Color::DarkGray
    } else {
        Color::Green
    }
}

fn color_of_rule(r: &str) -> (c: Color)
    ensures
        c == rule_color(r@),
{
    let t: String = trim(r);
    if starts_with(t.as_str(), "discard") {
        Color::Red
    } else if starts_with(t.as_str(), "passthrough") {
        Color::Yellow
    } else if starts_with(t.as_str(), "#") || t.as_str().unicode_len() == 0 {
        Color::DarkGray
    } else {
        Color::Green
    }
}

impl App {
    /// The rows of the rules.
    pub open spec fn rule_rows(self) -> Seq<LineV> {
        let rows = strs(self.side.rules@);
        Seq::new(
            rows.len(),
            |i: int| styled_line(rows[i], if i == self.side.sel_rule { cursor() } else { fg(rule_color(rows[i])) }),
        )
    }

    /// The list of the rules.
    pub open spec fn rules_pane(self) -> Seq<LineV> {
        seq![
            styled_line("apply/discard/passthrough <glob> — top → bottom, first match wins"@, bold()),
        ] + (if self.side.rules@.len() == 0 {
            seq![raw_line("(no rules — press n to add)"@)]
        } else {
            self.rule_rows()
        })
    }
}

/// The list of the rules.
pub fn rules_lines(app: &App) -> (r: Text)
    ensures
        r@ == app.rules_pane(),
{
    let mut out: Text = Text::new().ln(
        styled("apply/discard/passthrough <glob> — top → bottom, first match wins", bold()),
    );
    let ghost h = out@;
    let rows: &Vec<String> = &app.side.rules;
    if rows.len() == 0 {
        out = out.ln(raw("(no rules — press n to add)"));
        assert(out@ =~= app.rules_pane());
        return out;
    }
    let ghost all = app.rule_rows();
    assert(h + all.take(0) =~= h);
    let mut i: usize = 0;
    while i < rows.len()
        invariant
            i <= rows@.len(),
            rows == &app.side.rules,
            all == app.rule_rows(),
            out@ == h + all.take(i as int),
        decreases rows@.len() - i,
    {
        assert(strs(rows@)[i as int] == rows@[i as int]@);
        let r: &str = rows[i].as_str();
        out = out.ln(styled(r, if i == app.side.sel_rule { cursor() } else { fg(color_of_rule(r)) }));
        i += 1;
        assert(out@ =~= h + all.take(i as int));
    }
    assert(all.take(all.len() as int) =~= all);
    assert(out@ =~= app.rules_pane());
    out
}

/// A heading of the help.
pub open spec fn head_line(s: Seq<char>) -> LineV {
    styled_line(s, fg_bold(Color::Cyan))
}

/// A remark of the help.
pub open spec fn side_line(s: Seq<char>) -> LineV {
    styled_line(s, fg(Color::DarkGray))
}

fn heading(s: &str) -> (r: Line)
    ensures
        r@ == head_line(s@),
{
    styled(s, fg_bold(Color::Cyan))
}

fn side(s: &str) -> (r: Line)
    ensures
        r@ == side_line(s@),
{
    styled(s, fg(Color::DarkGray))
}

/// The beginning of the help.
pub open spec fn help_intro() -> Seq<LineV> {
    seq![
        head_line("sarun — sandboxed run → inspect → apply/discard"@),
        raw_line(""@),
        head_line("The loop"@),
        raw_line("  1. RUN a command in a box: it executes over a copy-on-write overlay"@),
        raw_line("     of your filesystem, so its writes never touch the host yet."@),
        raw_line("  2. INSPECT what it did: the changed files (diffs), the process tree,"@),
        raw_line("     and the captured stdout/stderr — all without committing anything."@),
        raw_line("  3. APPLY the writes you want onto the real host, or DISCARD them."@),
        raw_line("     Apply/discard can be whole-box, per-file, or per-HUNK."@),
        side_line("  Box networking is per-box: the default routes through the engine's"@),
        side_line("  in-process proxy (DNS + HTTPS MITM); --net off = closed, -N = host net."@),
        raw_line(""@),
        head_line("Panes (Tab cycles; or jump directly)"@),
    ]
}

fn add_help_intro(out: Text) -> (r: Text)
    ensures
        r@ == out@ + help_intro(),
{
    let ghost o = out@;
    let t: Text = out.ln(
        heading("sarun — sandboxed run → inspect → apply/discard"),
    ).ln(
        raw(""),
    ).ln(
        heading("The loop"),
    ).ln(
        raw("  1. RUN a command in a box: it executes over a copy-on-write overlay"),
    ).ln(
        raw("     of your filesystem, so its writes never touch the host yet."),
    ).ln(
        raw("  2. INSPECT what it did: the changed files (diffs), the process tree,"),
    ).ln(
        raw("     and the captured stdout/stderr — all without committing anything."),
    ).ln(
        raw("  3. APPLY the writes you want onto the real host, or DISCARD them."),
    ).ln(
        raw("     Apply/discard can be whole-box, per-file, or per-HUNK."),
    ).ln(
        side("  Box networking is per-box: the default routes through the engine's"),
    ).ln(
        side("  in-process proxy (DNS + HTTPS MITM); --net off = closed, -N = host net."),
    ).ln(
        raw(""),
    ).ln(
        heading("Panes (Tab cycles; or jump directly)"),
    );
    assert(t@ =~= o + help_intro());
    t
}

/// How to move, and the heading of the keys.
pub open spec fn help_moves() -> Seq<LineV> {
    seq![
        side_line("     in a PTY pane: keys go to the box · Ctrl-] / F12 / Esc-Esc detaches"@),
        raw_line(""@),
        head_line("Navigation & filters"@),
        raw_line("  j/k or ↓/↑  move       Enter  open the selection in the next pane"@),
        raw_line("  PageUp/PageDown  page   ctrl+↑/↓  reorder a rule (on Rules)"@),
        head_line("Actions (per-pane keys)"@),
    ]
}

fn add_help_moves(out: Text) -> (r: Text)
    ensures
        r@ == out@ + help_moves(),
{
    let ghost o = out@;
    let t: Text = out.ln(
        side("     in a PTY pane: keys go to the box · Ctrl-] / F12 / Esc-Esc detaches"),
    ).ln(
        raw(""),
    ).ln(
        heading("Navigation & filters"),
    ).ln(
        raw("  j/k or ↓/↑  move       Enter  open the selection in the next pane"),
    ).ln(
        raw("  PageUp/PageDown  page   ctrl+↑/↓  reorder a rule (on Rules)"),
    ).ln(
        heading("Actions (per-pane keys)"),
    );
    assert(t@ =~= o + help_moves());
    t
}

/// How to filter and to review.
pub open spec fn help_review() -> Seq<LineV> {
    seq![
        raw_line(""@),
        head_line("Filters"@),
        raw_line("  /  filter the active pane with a clause editor. Filter KINDS:"@),
        side_line("     path  — match the changed file's path (changes pane)"@),
        side_line("     box   — match the box name"@),
        side_line("     exe   — match a process's executable path"@),
        side_line("     cwd   — match a process's working directory"@),
        side_line("     arg   — match a token in a process's argv"@),
        side_line("     Rows fold top→bottom by each row's and/or; 'not' negates a row."@),
        raw_line("  c/p/o also cross-navigate: pin the destination pane to the rows the"@),
        raw_line("       cursor relates to (a change's writers, a process's outputs…)."@),
        side_line("       Esc drops such a generated filter."@),
        raw_line(""@),
        head_line("Reviewing changes"@),
        raw_line("  In the DIFF pane, a TEXT change is shown as unified-diff hunks:"@),
        raw_line("    ↑/↓  move the hunk cursor (▶)  ·  a  apply this hunk to the host"@),
        raw_line("    x or d  discard this hunk (revert it in the box)"@),
        raw_line("  A BINARY change shows a detail header (path · kind · size · mode,"@),
        raw_line("  ⚠ when the host changed since capture) and a STRUCTURAL diff: the"@),
        raw_line("  type is sniffed and a differ (readelf/ar/unzip/tar) runs in a"@),
        raw_line("  sandbox off the render path. Unrecognized types get a hexdump."@),
        raw_line(""@),
        head_line("Confirm prompts (y/n)"@),
    ]
}

fn add_help_review(out: Text) -> (r: Text)
    ensures
        r@ == out@ + help_review(),
{
    let ghost o = out@;
    let t: Text = out.ln(
        raw(""),
    ).ln(
        heading("Filters"),
    ).ln(
        raw("  /  filter the active pane with a clause editor. Filter KINDS:"),
    ).ln(
        side("     path  — match the changed file's path (changes pane)"),
    ).ln(
        side("     box   — match the box name"),
    ).ln(
        side("     exe   — match a process's executable path"),
    ).ln(
        side("     cwd   — match a process's working directory"),
    ).ln(
        side("     arg   — match a token in a process's argv"),
    ).ln(
        side("     Rows fold top→bottom by each row's and/or; 'not' negates a row."),
    ).ln(
        raw("  c/p/o also cross-navigate: pin the destination pane to the rows the"),
    ).ln(
        raw("       cursor relates to (a change's writers, a process's outputs…)."),
    ).ln(
        side("       Esc drops such a generated filter."),
    ).ln(
        raw(""),
    ).ln(
        heading("Reviewing changes"),
    ).ln(
        raw("  In the DIFF pane, a TEXT change is shown as unified-diff hunks:"),
    ).ln(
        raw("    ↑/↓  move the hunk cursor (▶)  ·  a  apply this hunk to the host"),
    ).ln(
        raw("    x or d  discard this hunk (revert it in the box)"),
    ).ln(
        raw("  A BINARY change shows a detail header (path · kind · size · mode,"),
    ).ln(
        raw("  ⚠ when the host changed since capture) and a STRUCTURAL diff: the"),
    ).ln(
        raw("  type is sniffed and a differ (readelf/ar/unzip/tar) runs in a"),
    ).ln(
        raw("  sandbox off the render path. Unrecognized types get a hexdump."),
    ).ln(
        raw(""),
    ).ln(
        heading("Confirm prompts (y/n)"),
    );
    assert(t@ =~= o + help_review());
    t
}

/// Nested boxes and file rules.
pub open spec fn help_rules() -> Seq<LineV> {
    seq![
        raw_line(""@),
        head_line("Boxes & nesting"@),
        side_line("  A box may be NESTED inside another: applying a nested box promotes"@),
        side_line("  its changes into the PARENT box (still pending), not the host;"@),
        side_line("  discarding copies the change DOWN into immediate child boxes."@),
        side_line("  Only a TOP-LEVEL box's apply reaches the real host."@),
        raw_line(""@),
        head_line("File rules (e)"@),
        raw_line("  n  new rule    Enter  edit selected    d  delete selected"@),
        raw_line("  ctrl+↑ / ctrl+↓  reorder the selected rule (order = priority)"@),
        raw_line("  Each rule is '<action> <clause>' where action is one of:"@),
        side_line("     apply        keep the matching writes (let them reach the host)"@),
        side_line("     discard      drop the matching writes"@),
        side_line("     passthrough  let the box write straight through to the host"@),
        raw_line("  A clause is a glob (e.g. **/*.log) or a typed clause like"@),
        raw_line("  'exe:**/gcc' / 'box:WORK' combined with and/or/not. Rules are"@),
        raw_line("  evaluated TOP → BOTTOM and the FIRST match wins; saving any edit"@),
        raw_line("  rewrites the filerules file and reloads it in the engine."@),
    ]
}

fn add_help_rules(out: Text) -> (r: Text)
    ensures
        r@ == out@ + help_rules(),
{
    let ghost o = out@;
    let t: Text = out.ln(
        raw(""),
    ).ln(
        heading("Boxes & nesting"),
    ).ln(
        side("  A box may be NESTED inside another: applying a nested box promotes"),
    ).ln(
        side("  its changes into the PARENT box (still pending), not the host;"),
    ).ln(
        side("  discarding copies the change DOWN into immediate child boxes."),
    ).ln(
        side("  Only a TOP-LEVEL box's apply reaches the real host."),
    ).ln(
        raw(""),
    ).ln(
        heading("File rules (e)"),
    ).ln(
        raw("  n  new rule    Enter  edit selected    d  delete selected"),
    ).ln(
        raw("  ctrl+↑ / ctrl+↓  reorder the selected rule (order = priority)"),
    ).ln(
        raw("  Each rule is '<action> <clause>' where action is one of:"),
    ).ln(
        side("     apply        keep the matching writes (let them reach the host)"),
    ).ln(
        side("     discard      drop the matching writes"),
    ).ln(
        side("     passthrough  let the box write straight through to the host"),
    ).ln(
        raw("  A clause is a glob (e.g. **/*.log) or a typed clause like"),
    ).ln(
        raw("  'exe:**/gcc' / 'box:WORK' combined with and/or/not. Rules are"),
    ).ln(
        raw("  evaluated TOP → BOTTOM and the FIRST match wins; saving any edit"),
    ).ln(
        raw("  rewrites the filerules file and reloads it in the engine."),
    );
    assert(t@ =~= o + help_rules());
    t
}

/// The help of a letter that goes to a pane.
pub open spec fn pane_help(k: PaneKeyV) -> LineV {
    raw_line("  "@ + seq![k.key] + "  "@ + k.help)
}

/// The help of the letters that go to a pane.
pub open spec fn pane_helps() -> Seq<LineV> {
    pane_table().map_values(|k: PaneKeyV| pane_help(k))
}

fn add_pane_helps(out: Text) -> (r: Text)
    ensures
        r@ == out@ + pane_helps(),
{
    let t: Vec<PaneKey> = pane_keys();
    let ghost v = pane_table();
    let ghost o = out@;
    let ghost all = pane_helps();
    assert(v.len() == t@.len());
    let mut r: Text = out;
    assert(o + all.take(0) =~= o);
    let mut i: usize = 0;
    while i < t.len()
        invariant
            i <= t@.len() == v.len(),
            v == pane_keys_v(t@),
            all == v.map_values(|k: PaneKeyV| pane_help(k)),
            r@ == o + all.take(i as int),
        decreases t@.len() - i,
    {
        assert(v[i as int] == t@[i as int]@);
        let mut k: String = String::new();
        k.push(t[i].key);
        assert(k@ =~= seq![v[i as int].key]);
        let s: String = own("  ").concat(k.as_str()).concat("  ").concat(t[i].help);
        r = r.ln(raw(s.as_str()));
        i += 1;
        assert(r@ =~= o + all.take(i as int));
    }
    assert(all.take(all.len() as int) =~= all);
    r
}

/// The help of a key of the panes.
pub open spec fn action_help(k: ActionKeyV) -> LineV {
    raw_line("  "@ + key_label(k.key) + "  "@ + k.help->0)
}

/// The help of the first `n` keys of the panes that have any.
pub open spec fn action_helps(t: Seq<ActionKeyV>, n: int) -> Seq<LineV>
    decreases n,
{
    if n <= 0 {
        Seq::empty()
    } else if t[n - 1].help is Some {
        action_helps(t, n - 1).push(action_help(t[n - 1]))
    } else {
        action_helps(t, n - 1)
    }
}

fn add_action_helps(out: Text) -> (r: Text)
    ensures
        r@ == out@ + action_helps(action_table(), action_table().len() as int),
{
    let t: Vec<ActionKey> = pane_action_keys();
    let ghost v = action_table();
    let ghost o = out@;
    assert(v.len() == t@.len());
    let mut r: Text = out;
    assert(o + action_helps(v, 0) =~= o);
    let mut i: usize = 0;
    while i < t.len()
        invariant
            i <= t@.len() == v.len(),
            v == action_keys_v(t@),
            r@ == o + action_helps(v, i as int),
        decreases t@.len() - i,
    {
        assert(v[i as int] == t@[i as int]@);
        let ghost before = action_helps(v, i as int);
        match t[i].help {
            Some(h) => {
                let s: String = own("  ").concat(t[i].key.label().as_str()).concat("  ").concat(h);
                r = r.ln(raw(s.as_str()));
                assert(r@ =~= o + before.push(action_help(v[i as int])));
            },
            None => {},
        }
        i += 1;
    }
    r
}

/// The keys of the confirmation dialog, and what each does.
pub open spec fn confirm_table() -> Seq<(Key, ConfirmKey)> {
    seq![
        (Key::Char('y'), ConfirmKey::Yes),
        (Key::Char('Y'), ConfirmKey::Yes),
        (Key::Char('n'), ConfirmKey::No),
        (Key::Char('N'), ConfirmKey::No),
        (Key::Esc, ConfirmKey::No),
    ]
}

/// The labels of the first `n` keys of the confirmation dialog that do one thing.
pub open spec fn confirm_labels(t: Seq<(Key, ConfirmKey)>, n: int, want: ConfirmKey) -> Seq<Seq<char>>
    decreases n,
{
    if n <= 0 {
        Seq::empty()
    } else if t[n - 1].1 == want {
        confirm_labels(t, n - 1, want).push(key_label(t[n - 1].0))
    } else {
        confirm_labels(t, n - 1, want)
    }
}

fn labels_of(want: ConfirmKey) -> (r: String)
    ensures
        r@ == joined(confirm_labels(confirm_table(), confirm_table().len() as int, want), "/"@),
{
    let t: Vec<(Key, ConfirmKey, &'static str)> = confirm_keys();
    let ghost v = confirm_table();
    let mut out: Vec<String> = Vec::new();
    let mut i: usize = 0;
    assert(strs(out@) =~= confirm_labels(v, 0, want));
    assert(v.len() == t@.len());
    assert(forall|k: int| 0 <= k < v.len() ==> (#[trigger] v[k]).0 == t@[k].0 && v[k].1 == t@[k].1);
    while i < t.len()
        invariant
            i <= t@.len() == v.len(),
            forall|k: int| 0 <= k < v.len() ==> (#[trigger] v[k]).0 == t@[k].0 && v[k].1 == t@[k].1,
            strs(out@) == confirm_labels(v, i as int, want),
        decreases t@.len() - i,
    {
        assert(v[i as int].0 == t@[i as int].0);
        if t[i].1 == want {
            let ghost o = strs(out@);
            out.push(t[i].0.label());
            assert(strs(out@) =~= o.push(key_label(v[i as int].0)));
        }
        i += 1;
    }
    join(&out, "/")
}

/// The help of the confirmation dialog.
pub open spec fn confirm_help() -> LineV {
    let n = confirm_table().len() as int;
    raw_line(
        "  "@ + joined(confirm_labels(confirm_table(), n, ConfirmKey::Yes), "/"@) + "  confirm the action     "@ + joined(
            confirm_labels(confirm_table(), n, ConfirmKey::No),
            "/"@,
        ) + "  cancel"@,
    )
}

/// The help.
pub open spec fn help_pane() -> Seq<LineV> {
    help_intro() + pane_helps() + help_moves() + action_helps(action_table(), action_table().len() as int) + help_review()
        + seq![confirm_help()] + help_rules()
}

/// The help: what the client is for, and its keys, out of the tables by which they work.
pub fn help_lines() -> (r: Text)
    ensures
        r@ == help_pane(),
{
    let t: Text = add_help_intro(Text::new());
    assert(t@ =~= help_intro());
    let t: Text = add_help_review(add_action_helps(add_help_moves(add_pane_helps(t))));
    let ghost a = t@;
    let s: String = own("  ").concat(labels_of(ConfirmKey::Yes).as_str()).concat("  confirm the action     ").concat(
        labels_of(ConfirmKey::No).as_str(),
    ).concat("  cancel");
    let t: Text = t.ln(raw(s.as_str()));
    assert(t@ =~= a + seq![confirm_help()]);
    add_help_rules(t)
}

proof fn lemma_action_help(t: Seq<ActionKeyV>, n: int, i: int)
    requires
        0 <= i < n <= t.len(),
        t[i].help is Some,
    ensures
        action_helps(t, n).contains(action_help(t[i])),
    decreases n,
{
    if i < n - 1 {
        lemma_action_help(t, n - 1, i);
        let before = action_helps(t, n - 1);
        let k = choose|k: int| 0 <= k < before.len() && before[k] == action_help(t[i]);
        assert(action_helps(t, n)[k] == action_help(t[i]));
    } else {
        let s = action_helps(t, n);
        assert(s[s.len() - 1] == action_help(t[i]));
    }
}

/// The help shows every key of the panes that has an explanation, with that explanation.
pub proof fn law_help_shows_every_key(i: int)
    requires
        0 <= i < action_table().len(),
        action_table()[i].help is Some,
    ensures
        help_pane().contains(action_help(action_table()[i])),
{
    let t = action_table();
    let n = t.len() as int;
    lemma_action_help(t, n, i);
    let lines = action_helps(t, n);
    let k = choose|k: int| 0 <= k < lines.len() && lines[k] == action_help(t[i]);
    let before = help_intro() + pane_helps() + help_moves();
    assert(help_pane()[before.len() + k] == action_help(t[i]));
}

/// The help shows every letter that goes to a pane.
pub proof fn law_help_shows_every_pane(i: int)
    requires
        0 <= i < pane_table().len(),
    ensures
        help_pane().contains(pane_help(pane_table()[i])),
{
    assert(pane_helps()[i] == pane_help(pane_table()[i]));
    assert(help_pane()[help_intro().len() + i] == pane_help(pane_table()[i]));
}

} // verus!
