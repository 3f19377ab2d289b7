//! What the dialogs look like.

use vstd::prelude::*;

use crate::app::{effective_net, App, NetMode};
use crate::canvas::{Canvas, Frame, Widget};
#[allow(unused_imports)]
use crate::canvas::{FrameV, WidgetV};
use crate::outside::Rect;
use crate::rules::Join;
#[allow(unused_imports)]
use crate::rules::ClauseV;
use crate::style::{cursor, dim, fg, fg_bold, plain, raw, styled, Color, Line, Style, Text};
#[allow(unused_imports)]
use crate::style::{raw_line, styled_line, LineV};
use crate::text::{join, own, pad_right, repeat_char, starts_with, trim_start};
#[allow(unused_imports)]
use crate::text::{has_prefix, joined, padr, rep, strs, trim_l};
use crate::types::{ActionItem, ApiField, ClauseField, ClauseRow, Modal, ModelRow, PickItem, PickLevel, PickNext};
#[allow(unused_imports)]
use crate::types::{items_v, levels_v, models_v, pick_v, picks, rows_v, ItemV, LevelV, ModalV, ModelV, PickV};

verus! {

/// A text that is being typed.
pub open spec fn typed(buf: Seq<char>) -> LineV {
    raw_line(buf + "_"@)
}

fn typed_line(buf: &str) -> (r: Line)
    ensures
        r@ == typed(buf@),
{
    raw(own(buf).concat("_").as_str())
}

/// A text that is being typed, and what is said of it.
pub open spec fn typed_body(buf: Seq<char>, help: Seq<char>) -> Seq<LineV> {
    seq![typed(buf), raw_line(""@), raw_line(help)]
}

fn typed_text(buf: &str, help: &str) -> (r: Text)
    ensures
        r@ == typed_body(buf@, help@),
{
    let t: Text = Text::new().ln(typed_line(buf)).ln(raw("")).ln(raw(help));
    assert(t@ =~= typed_body(buf@, help@));
    t
}

/// A switch of a filter line: bright where it is on.
pub open spec fn switch_style(on: bool, active: bool) -> Style {
    if active {
        cursor()
    } else if on {
        fg_bold(Color::Yellow)
    } else {
        dim()
    }
}

fn style_of_switch(on: bool, active: bool) -> (r: Style)
    ensures
        r == switch_style(on, active),
{
    if active {
        cursor()
    } else if on {
        fg_bold(Color::Yellow)
    } else {
        dim()
    }
}

/// A line of the filter editor; the cursor is on a column of it or not at all.
pub open spec fn filter_line(r: ClauseV, is_first: bool, on: Option<ClauseField>) -> LineV {
    let join = if is_first {
        "   "@
    } else {
        match r.join {
            Join::And => "and"@,
            Join::Or => "or "@,
        }
    };
    LineV::new().raw(if on is Some { "› "@ } else { "  "@ }).sp(
        "[on]"@,
        switch_style(r.enabled, on == Some(ClauseField::Enabled)),
    ).raw(" "@).sp(join, if on == Some(ClauseField::Join) { cursor() } else { plain() }).raw(" "@).sp(
        "[not]"@,
        switch_style(r.negate, on == Some(ClauseField::Negate)),
    ).raw(" "@).sp(
        padr(r.kind, 5),
        if on == Some(ClauseField::Kind) { cursor() } else { fg(Color::Yellow) },
    ).raw(" "@).sp(
        if on == Some(ClauseField::Pattern) { r.pattern + "_"@ } else { r.pattern },
        if on == Some(ClauseField::Pattern) { cursor() } else { plain() },
    )
}

fn filter_row(r: &ClauseRow, is_first: bool, on: Option<ClauseField>) -> (l: Line)
    ensures
        l@ == filter_line(r@, is_first, on),
{
    let join: &str = if is_first {
        "   "
    } else {
        match r.join {
            Join::And => "and",
            Join::Or => "or ",
        }
    };
    let (here, enabled, joining, negate, kind, pattern): (bool, bool, bool, bool, bool, bool) = match on {
        None => (false, false, false, false, false, false),
        Some(f) => (
            true,
            f == ClauseField::Enabled,
            f == ClauseField::Join,
            f == ClauseField::Negate,
            f == ClauseField::Kind,
            f == ClauseField::Pattern,
        ),
    };
    let p: String = if pattern { own(r.pattern.as_str()).concat("_") } else { own(r.pattern.as_str()) };
    Line::new().raw(if here { "› " } else { "  " }).sp("[on]", style_of_switch(r.enabled, enabled)).raw(" ").sp(
        join,
        if joining {
            cursor()
        } else {
            plain()
        },
    ).raw(" ").sp("[not]", style_of_switch(r.negate, negate)).raw(" ").add(
        pad_right(r.kind.as_str(), 5),
        if kind {
            cursor()
        } else {
            fg(Color::Yellow)
        },
    ).raw(" ").add(
        p,
        if pattern {
            cursor()
        } else {
            plain()
        },
    )
}

/// The lines of the filter editor.
pub open spec fn filter_lines(rows: Seq<ClauseV>, sel: int, field: ClauseField) -> Seq<LineV> {
    Seq::new(rows.len(), |i: int| filter_line(rows[i], i == 0, if i == sel { Some(field) } else { None }))
}

/// The filter editor.
pub open spec fn filter_body(rows: Seq<ClauseV>, sel: int, field: ClauseField) -> Seq<LineV> {
    seq![
        styled_line(
            "keep only entries matching — rows folded top→bottom by each row's and/or"@,
            fg(Color::Gray),
        ),
    ] + filter_lines(rows, sel, field) + seq![
        raw_line(""@),
        styled_line(
            "←/→ field · space toggles on/not (and cycles kind) · type pattern · n new row · ^s apply · esc clear"@,
            fg(Color::Gray),
        ),
    ]
}

fn filter_text(rows: &Vec<ClauseRow>, sel: usize, field: ClauseField) -> (r: Text)
    ensures
        r@ == filter_body(rows_v(rows@), sel as int, field),
{
    let mut t: Text = Text::new().ln(
        styled("keep only entries matching — rows folded top→bottom by each row's and/or", fg(Color::Gray)),
    );
    let ghost h = t@;
    let ghost all = filter_lines(rows_v(rows@), sel as int, field);
    assert(h + all.take(0) =~= h);
    let mut i: usize = 0;
    while i < rows.len()
        invariant
            i <= rows@.len(),
            all == filter_lines(rows_v(rows@), sel as int, field),
            t@ == h + all.take(i as int),
        decreases rows@.len() - i,
    {
        assert(rows_v(rows@)[i as int] == rows@[i as int]@);
        t = t.ln(filter_row(&rows[i], i == 0, if i == sel { Some(field) } else { None }));
        i += 1;
        assert(t@ =~= h + all.take(i as int));
    }
    assert(all.take(all.len() as int) =~= all);
    t = t.ln(raw("")).ln(
        styled(
            "←/→ field · space toggles on/not (and cycles kind) · type pattern · n new row · ^s apply · esc clear",
            fg(Color::Gray),
        ),
    );
    assert(t@ =~= filter_body(rows_v(rows@), sel as int, field));
    t
}

/// The help of the command line: a command of this program makes a box, another one does not.
pub open spec fn cmd_help(buf: Seq<char>) -> Seq<char> {
    if has_prefix(trim_l(buf), "sarun "@) {
        "this is a `sarun` command — it launches a sandboxed, captured box (edit the args or command, then Enter) · Esc cancel"@
    } else {
        "runs on the HOST as typed — no box, no capture (a bare `bash` is a plain host shell); prefix `sarun run -b -- CMD` to run CMD in a fresh captured box · Enter run · Esc cancel"@
    }
}

fn help_of_cmd(buf: &str) -> (r: &'static str)
    ensures
        r@ == cmd_help(buf@),
{
    if starts_with(trim_start(buf).as_str(), "sarun ") {
        "this is a `sarun` command — it launches a sandboxed, captured box (edit the args or command, then Enter) · Esc cancel"
    } else {
        "runs on the HOST as typed — no box, no capture (a bare `bash` is a plain host shell); prefix `sarun run -b -- CMD` to run CMD in a fresh captured box · Enter run · Esc cancel"
    }
}

/// The length of the longest label among the first `n` entries, `least` at least.
pub open spec fn label_width(items: Seq<ItemV>, n: int, least: int) -> int
    decreases n,
{
    if n <= 0 {
        least
    } else {
        let w = label_width(items, n - 1, least);
        if items[n - 1].label.len() > w { items[n - 1].label.len() as int } else { w }
    }
}

fn width_of_labels(items: &Vec<ActionItem>, least: usize) -> (r: usize)
    ensures
        r == label_width(items_v(items@), items@.len() as int, least as int),
{
    let mut w: usize = least;
    let mut i: usize = 0;
    while i < items.len()
        invariant
            i <= items@.len(),
            w == label_width(items_v(items@), i as int, least as int),
        decreases items@.len() - i,
    {
        assert(items_v(items@)[i as int] == items@[i as int]@);
        let n: usize = items[i].label.as_str().unicode_len();
        if n > w {
            w = n;
        }
        i += 1;
    }
    w
}

/// The entries of a menu.
pub open spec fn menu_lines(items: Seq<ItemV>, sel: int) -> Seq<LineV> {
    let w = label_width(items, items.len() as int, 20);
    Seq::new(
        items.len(),
        |i: int|
            LineV::new().sp("  "@ + padr(items[i].label, w), if i == sel { cursor() } else { plain() }).sp(
                "  "@ + items[i].hint,
                fg(Color::DarkGray),
            ),
    )
}

fn add_menu(out: Text, items: &Vec<ActionItem>, sel: usize) -> (r: Text)
    ensures
        r@ == out@ + menu_lines(items_v(items@), sel as int),
{
    let w: usize = width_of_labels(items, 20);
    let ghost o = out@;
    let ghost all = menu_lines(items_v(items@), sel as int);
    assert(items_v(items@).len() == items@.len());
    let mut t: Text = out;
    assert(o + all.take(0) =~= o);
    let mut i: usize = 0;
    while i < items.len()
        invariant
            i <= items@.len() == items_v(items@).len(),
            w == label_width(items_v(items@), items@.len() as int, 20),
            all == menu_lines(items_v(items@), sel as int),
            t@ == o + all.take(i as int),
        decreases items@.len() - i,
    {
        assert(items_v(items@)[i as int] == items@[i as int]@);
        let l: String = own("  ").concat(pad_right(items[i].label.as_str(), w).as_str());
        let h: String = own("  ").concat(items[i].hint);
        t = t.ln(
            Line::new().add(
                l,
                if i == sel {
                    cursor()
                } else {
                    plain()
                },
            ).add(h, fg(Color::DarkGray)),
        );
        i += 1;
        assert(t@ =~= o + all.take(i as int));
    }
    assert(all.take(all.len() as int) =~= all);
    t
}

/// The menu of a row.
pub open spec fn menu_body(title: Seq<char>, items: Seq<ItemV>, sel: int) -> Seq<LineV> {
    seq![styled_line(title, fg_bold(Color::Cyan)), raw_line(""@)] + menu_lines(items, sel) + seq![
        raw_line(""@),
        styled_line("↑/↓ move · Enter run · Esc cancel"@, fg(Color::Gray)),
    ]
}

fn menu_text(title: &str, items: &Vec<ActionItem>, sel: usize) -> (r: Text)
    ensures
        r@ == menu_body(title@, items_v(items@), sel as int),
{
    let t: Text = Text::new().ln(styled(title, fg_bold(Color::Cyan))).ln(raw(""));
    let t: Text = add_menu(t, items, sel).ln(raw("")).ln(styled("↑/↓ move · Enter run · Esc cancel", fg(Color::Gray)));
    assert(t@ =~= menu_body(title@, items_v(items@), sel as int));
    t
}

/// A choice of the launcher behind others, with the key that changes it.
pub open spec fn with_choice(l: LineV, key: Seq<char>, label: Seq<char>, st: Style) -> LineV {
    l.sp("["@ + key + "] "@, fg_bold(Color::Cyan)).sp(label, st).raw("   "@)
}

fn add_choice(l: Line, key: &str, label: &str, st: Style) -> (r: Line)
    ensures
        r@ == with_choice(l@, key@, label@, st),
{
    l.add(own("[").concat(key).concat("] "), fg_bold(Color::Cyan)).sp(label, st).raw("   ")
}

/// The name of a network mode in capitals.
pub open spec fn net_caps(m: NetMode) -> Seq<char> {
    match m {
        NetMode::Tap => "TAP"@,
        NetMode::Host => "HOST"@,
        NetMode::Off => "OFF"@,
    }
}

fn caps_of_net(m: NetMode) -> (r: &'static str)
    ensures
        r@ == net_caps(m),
{
    match m {
        NetMode::Tap => "TAP",
        NetMode::Host => "HOST",
        NetMode::Off => "OFF",
    }
}

impl App {
    /// The choices of the launcher.
    pub open spec fn choices_line(self) -> LineV {
        let net = self.jobs.launch.net;
        let env = self.jobs.launch.env;
        let a = if !self.jobs.launch.tap_ok && net == NetMode::Tap {
            with_choice(LineV::new(), "n"@, "network: TAP ✗ unavailable here"@, fg_bold(Color::Red))
        } else {
            with_choice(
                LineV::new(),
                "n"@,
                "network: "@ + net_caps(net),
                if net != NetMode::Tap { fg_bold(Color::Yellow) } else { fg(Color::Yellow) },
            )
        };
        with_choice(
            a,
            "e"@,
            "record env: "@ + (if env { "ON"@ } else { "off"@ }),
            if env { fg_bold(Color::Yellow) } else { fg(Color::Yellow) },
        )
    }

    /// The launcher.
    pub open spec fn launcher_body(self, items: Seq<ItemV>, sel: int) -> Seq<LineV> {
        seq![
            styled_line("New PTY — where should it run?"@, fg_bold(Color::Cyan)),
            raw_line(""@),
            self.choices_line(),
            styled_line(
                (if self.jobs.launch.tap_ok {
                    "n cycles network (tap → host → off)"@
                } else {
                    "n cycles network (tap ✗ no CLONE_NEWNET here → host → off)"@
                }) + " · e toggles env capture — applied to box/container launches"@,
                fg(Color::DarkGray),
            ),
            raw_line(""@),
        ] + menu_lines(items, sel) + seq![
            raw_line(""@),
            styled_line("↑/↓ move · Enter launch · Esc cancel"@, fg(Color::Gray)),
        ]
    }
}

fn choices(app: &App) -> (r: Line)
    ensures
        r@ == app.choices_line(),
{
    let net: NetMode = app.jobs.launch.net;
    let env: bool = app.jobs.launch.env;
    let a: Line = if !app.jobs.launch.tap_ok && net == NetMode::Tap {
        add_choice(Line::new(), "n", "network: TAP ✗ unavailable here", fg_bold(Color::Red))
    } else {
        add_choice(
            Line::new(),
            "n",
            own("network: ").concat(caps_of_net(net)).as_str(),
            if net != NetMode::Tap {
                fg_bold(Color::Yellow)
            } else {
                fg(Color::Yellow)
            },
        )
    };
    add_choice(
        a,
        "e",
        own("record env: ").concat(if env { "ON" } else { "off" }).as_str(),
        if env {
            fg_bold(Color::Yellow)
        } else {
            fg(Color::Yellow)
        },
    )
}

fn launcher_text(app: &App, items: &Vec<ActionItem>, sel: usize) -> (r: Text)
    ensures
        r@ == app.launcher_body(items_v(items@), sel as int),
{
    let hint: String = own(
        if app.jobs.launch.tap_ok {
            "n cycles network (tap → host → off)"
        } else {
            "n cycles network (tap ✗ no CLONE_NEWNET here → host → off)"
        },
    ).concat(" · e toggles env capture — applied to box/container launches");
    let t: Text = Text::new().ln(styled("New PTY — where should it run?", fg_bold(Color::Cyan))).ln(raw("")).ln(
        choices(app),
    ).ln(styled(hint.as_str(), fg(Color::DarkGray))).ln(raw(""));
    let t: Text = add_menu(t, items, sel).ln(raw("")).ln(styled("↑/↓ move · Enter launch · Esc cancel", fg(Color::Gray)));
    assert(t@ =~= app.launcher_body(items_v(items@), sel as int));
    t
}

/// The length of the longest label among the first `n` entries of the image picker, 24 at least.
pub open spec fn pick_width(items: Seq<PickV>, n: int) -> int
    decreases n,
{
    if n <= 0 {
        24
    } else {
        let w = pick_width(items, n - 1);
        if items[n - 1].label.len() > w { items[n - 1].label.len() as int } else { w }
    }
}

fn width_of_picks(items: &Vec<PickItem>) -> (r: usize)
    ensures
        r == pick_width(picks(items@), items@.len() as int),
{
    let mut w: usize = 24;
    let mut i: usize = 0;
    while i < items.len()
        invariant
            i <= items@.len(),
            w == pick_width(picks(items@), i as int),
        decreases items@.len() - i,
    {
        assert(picks(items@)[i as int] == pick_v(items@[i as int]));
        let n: usize = items[i].label.as_str().unicode_len();
        if n > w {
            w = n;
        }
        i += 1;
    }
    w
}

/// The entries of a level of the image picker.
pub open spec fn pick_lines(items: Seq<PickV>, sel: int) -> Seq<LineV> {
    let w = pick_width(items, items.len() as int);
    Seq::new(
        items.len(),
        |i: int|
            LineV::new().sp(
                "  "@ + padr(items[i].label, w) + " "@ + (if items[i].next is Menu { "▸"@ } else { " "@ }),
                if i == sel { cursor() } else { plain() },
            ).sp("  "@ + items[i].detail, fg(Color::DarkGray)),
    )
}

fn add_picks(out: Text, items: &Vec<PickItem>, sel: usize) -> (r: Text)
    ensures
        r@ == out@ + pick_lines(picks(items@), sel as int),
{
    let w: usize = width_of_picks(items);
    let ghost o = out@;
    let ghost all = pick_lines(picks(items@), sel as int);
    assert(picks(items@).len() == items@.len());
    let mut t: Text = out;
    assert(o + all.take(0) =~= o);
    let mut i: usize = 0;
    while i < items.len()
        invariant
            i <= items@.len() == picks(items@).len(),
            w == pick_width(picks(items@), items@.len() as int),
            all == pick_lines(picks(items@), sel as int),
            t@ == o + all.take(i as int),
        decreases items@.len() - i,
    {
        assert(picks(items@)[i as int] == pick_v(items@[i as int]));
        let deeper: bool = match items[i].next {
            PickNext::Menu(_) => true,
            _ => false,
        };
        assert(deeper == (pick_v(items@[i as int]).next is Menu));
        let l: String = own("  ").concat(pad_right(items[i].label.as_str(), w).as_str()).concat(" ").concat(
            if deeper {
                "▸"
            } else {
                " "
            },
        );
        let d: String = own("  ").concat(items[i].detail.as_str());
        t = t.ln(
            Line::new().add(
                l,
                if i == sel {
                    cursor()
                } else {
                    plain()
                },
            ).add(d, fg(Color::DarkGray)),
        );
        i += 1;
        assert(t@ =~= o + all.take(i as int));
    }
    assert(all.take(all.len() as int) =~= all);
    t
}

/// The image picker: the level that was opened last.
pub open spec fn picker_body(crumbs: Seq<Seq<char>>, stack: Seq<LevelV>) -> Seq<LineV> {
    seq![
        styled_line(
            if crumbs.len() == 0 { "Pick a base image"@ } else { joined(crumbs, " › "@) },
            fg_bold(Color::Cyan),
        ),
        raw_line(""@),
    ] + (if stack.len() > 0 { pick_lines(stack.last().items, stack.last().sel) } else { Seq::empty() }) + seq![
        raw_line(""@),
        styled_line("↑/↓ move · Enter pick/descend · Backspace up · Esc cancel"@, fg(Color::Gray)),
    ]
}

fn picker_text(crumbs: &Vec<String>, stack: &Vec<PickLevel>) -> (r: Text)
    ensures
        r@ == picker_body(strs(crumbs@), levels_v(stack@)),
{
    assert(strs(crumbs@).len() == crumbs@.len());
    assert(levels_v(stack@).len() == stack@.len());
    let head: String = if crumbs.len() == 0 { own("Pick a base image") } else { join(crumbs, " › ") };
    let mut t: Text = Text::new().ln(styled(head.as_str(), fg_bold(Color::Cyan))).ln(raw(""));
    let ghost h = t@;
    if stack.len() > 0 {
        let l: &PickLevel = &stack[stack.len() - 1];
        assert(levels_v(stack@).last() == l@);
        t = add_picks(t, &l.items, l.sel);
    }
    t = t.ln(raw("")).ln(
        styled("↑/↓ move · Enter pick/descend · Backspace up · Esc cancel", fg(Color::Gray)),
    );
    assert(t@ =~= picker_body(strs(crumbs@), levels_v(stack@)));
    t
}

/// The models.
pub open spec fn model_lines(models: Seq<ModelV>, sel: int) -> Seq<LineV> {
    Seq::new(
        models.len(),
        |i: int|
            LineV::new().sp("  "@ + models[i].name, if i == sel { cursor() } else { plain() }).sp(
                "  "@ + models[i].note,
                fg(Color::DarkGray),
            ),
    )
}

fn add_models(out: Text, models: &Vec<ModelRow>, sel: usize) -> (r: Text)
    ensures
        r@ == out@ + model_lines(models_v(models@), sel as int),
{
    let ghost o = out@;
    let ghost all = model_lines(models_v(models@), sel as int);
    let mut t: Text = out;
    assert(o + all.take(0) =~= o);
    let mut i: usize = 0;
    while i < models.len()
        invariant
            i <= models@.len(),
            all == model_lines(models_v(models@), sel as int),
            t@ == o + all.take(i as int),
        decreases models@.len() - i,
    {
        assert(models_v(models@)[i as int] == models@[i as int]@);
        let n: String = own("  ").concat(models[i].name.as_str());
        let d: String = own("  ").concat(models[i].note.as_str());
        t = t.ln(
            Line::new().add(
                n,
                if i == sel {
                    cursor()
                } else {
                    plain()
                },
            ).add(d, fg(Color::DarkGray)),
        );
        i += 1;
        assert(t@ =~= o + all.take(i as int));
    }
    assert(all.take(all.len() as int) =~= all);
    t
}

/// The models that can be picked, and the row for another one.
pub open spec fn model_choices(models: Seq<ModelV>, sel: int, loading: bool) -> Seq<LineV> {
    if loading {
        seq![styled_line("  querying HuggingFace for current models…"@, fg(Color::Yellow))]
    } else {
        model_lines(models, sel) + seq![
            styled_line(
                "  Enter a custom GGUF URL…"@,
                if sel == models.len() { cursor() } else { fg(Color::Gray) },
            ),
        ] + (if models.len() == 0 {
            seq![styled_line("  (no catalog models — use the custom URL row)"@, fg(Color::DarkGray))]
        } else {
            Seq::empty()
        })
    }
}

/// The model picker; `conf` is the directory of the settings.
pub open spec fn models_body(models: Seq<ModelV>, source: Seq<char>, sel: int, loading: bool, conf: Seq<char>) -> Seq<LineV> {
    seq![
        styled_line(
            "pick a local model — downloaded in a box, served on demand (no host writes)"@,
            fg_bold(Color::Cyan),
        ),
        raw_line(""@),
    ] + model_choices(models, sel, loading) + seq![
        raw_line(""@),
        styled_line(
            "source: "@ + (if source.len() == 0 { "…"@ } else { source }) + " · override via "@ + conf
                + "/oaita-models.toml"@,
            fg(Color::DarkGray),
        ),
        styled_line("↑/↓ move · Enter download & serve · Esc cancel"@, fg(Color::Gray)),
    ]
}

fn models_text(models: &Vec<ModelRow>, source: &str, sel: usize, loading: bool, conf: &str) -> (r: Text)
    ensures
        r@ == models_body(models_v(models@), source@, sel as int, loading, conf@),
{
    let mut t: Text = Text::new().ln(
        styled(
            "pick a local model — downloaded in a box, served on demand (no host writes)",
            fg_bold(Color::Cyan),
        ),
    ).ln(raw(""));
    let ghost h = t@;
    assert(models_v(models@).len() == models@.len());
    if loading {
        t = t.ln(styled("  querying HuggingFace for current models…", fg(Color::Yellow)));
    } else {
        t = add_models(t, models, sel).ln(
            styled(
                "  Enter a custom GGUF URL…",
                if sel == models.len() {
                    cursor()
                } else {
                    fg(Color::Gray)
                },
            ),
        );
        if models.len() == 0 {
            t = t.ln(styled("  (no catalog models — use the custom URL row)", fg(Color::DarkGray)));
        }
    }
    assert(t@ =~= h + model_choices(models_v(models@), sel as int, loading));
    let s: String = own("source: ").concat(if source.unicode_len() == 0 { "…" } else { source }).concat(
        " · override via ",
    ).concat(conf).concat("/oaita-models.toml");
    t = t.ln(raw("")).ln(styled(s.as_str(), fg(Color::DarkGray))).ln(
        styled("↑/↓ move · Enter download & serve · Esc cancel", fg(Color::Gray)),
    );
    assert(t@ =~= models_body(models_v(models@), source@, sel as int, loading, conf@));
    t
}

/// A key that must not be read: as many dots as it has characters, 24 at most.
pub open spec fn masked(key: Seq<char>) -> Seq<char> {
    rep('•', if key.len() < 24 { key.len() as int } else { 24 })
}

/// A field of the endpoint editor.
pub open spec fn field_line(label: Seq<char>, shown: Seq<char>, active: bool) -> LineV {
    LineV::new().sp(" "@ + label, if active { cursor() } else { fg(Color::Gray) }).raw("  "@).raw(
        if active { shown + "_"@ } else { shown },
    )
}

fn field_row(label: &str, shown: &str, active: bool) -> (r: Line)
    ensures
        r@ == field_line(label@, shown@, active),
{
    let v: String = if active { own(shown).concat("_") } else { own(shown) };
    Line::new().add(
        own(" ").concat(label),
        if active {
            cursor()
        } else {
            fg(Color::Gray)
        },
    ).raw("  ").raw(v.as_str())
}

/// What a test of the endpoint showed.
pub open spec fn probe_line(result: Seq<char>, testing: bool) -> LineV {
    if testing {
        styled_line("  testing connection…"@, fg(Color::Yellow))
    } else if result.len() == 0 {
        styled_line("  (Ctrl-T tests the connection)"@, fg(Color::DarkGray))
    } else {
        styled_line("  "@ + result, fg(if result[0] == '✓' { Color::Green } else { Color::Red }))
    }
}

fn probe_row(result: &str, testing: bool) -> (r: Line)
    ensures
        r@ == probe_line(result@, testing),
{
    if testing {
        styled("  testing connection…", fg(Color::Yellow))
    } else if result.unicode_len() == 0 {
        styled("  (Ctrl-T tests the connection)", fg(Color::DarkGray))
    } else {
        let good: bool = result.get_char(0) == '✓';
        styled(own("  ").concat(result).as_str(), fg(if good { Color::Green } else { Color::Red }))
    }
}

/// The endpoint editor.
pub open spec fn endpoint_body(
    base_url: Seq<char>,
    model: Seq<char>,
    api_key: Seq<char>,
    slot: ApiField,
    result: Seq<char>,
    testing: bool,
) -> Seq<LineV> {
    seq![
        styled_line("external OpenAI-compatible endpoint — written to oaita.toml"@, fg_bold(Color::Cyan)),
        raw_line(""@),
        field_line("model    "@, model, slot == ApiField::Model),
        field_line(
            "base_url "@,
            if base_url.len() == 0 { "https://api.openai.com/v1 (default)"@ } else { base_url },
            slot == ApiField::BaseUrl,
        ),
        field_line("api_key  "@, masked(api_key), slot == ApiField::ApiKey),
        raw_line(""@),
        probe_line(result, testing),
        styled_line(
            "Tab/↑/↓ field · type to edit · Ctrl-T test · Ctrl-S/Enter save · Esc cancel"@,
            fg(Color::Gray),
        ),
    ]
}

fn endpoint_text(base_url: &str, model: &str, api_key: &str, slot: ApiField, result: &str, testing: bool) -> (r: Text)
    ensures
        r@ == endpoint_body(base_url@, model@, api_key@, slot, result@, testing),
{
    let n: usize = api_key.unicode_len();
    let dots: String = repeat_char('•', if n < 24 { n } else { 24 });
    let t: Text = Text::new().ln(
        styled("external OpenAI-compatible endpoint — written to oaita.toml", fg_bold(Color::Cyan)),
    ).ln(raw("")).ln(field_row("model    ", model, slot == ApiField::Model)).ln(
        field_row(
            "base_url ",
            if base_url.unicode_len() == 0 {
                "https://api.openai.com/v1 (default)"
            } else {
                base_url
            },
            slot == ApiField::BaseUrl,
        ),
    ).ln(field_row("api_key  ", dots.as_str(), slot == ApiField::ApiKey)).ln(raw("")).ln(
        probe_row(result, testing),
    ).ln(
        styled(
            "Tab/↑/↓ field · type to edit · Ctrl-T test · Ctrl-S/Enter save · Esc cancel",
            fg(Color::Gray),
        ),
    );
    assert(t@ =~= endpoint_body(base_url@, model@, api_key@, slot, result@, testing));
    t
}

impl App {
    /// The question for the task of an agent.
    pub open spec fn task_body(self, box_name: Seq<char>, session: Seq<char>, buf: Seq<char>) -> Seq<LineV> {
        seq![
            styled_line(
                "run an oaita agent on box '"@ + box_name + "' (session '"@ + session + "', net "@ + self.net() + ")"@,
                fg_bold(Color::Cyan),
            ),
            raw_line(""@),
            typed(buf),
            raw_line(""@),
            raw_line(
                "type the task, e.g. `summarize README.md` — Enter runs it in a captured box layered on this box (net via the Pty+ chip) · Esc cancel"@,
            ),
        ]
    }
}

fn task_text(app: &App, box_name: &str, session: &str, buf: &str) -> (r: Text)
    ensures
        r@ == app.task_body(box_name@, session@, buf@),
{
    let s: String = own("run an oaita agent on box '").concat(box_name).concat("' (session '").concat(session).concat(
        "', net ",
    ).concat(effective_net(app)).concat(")");
    let t: Text = Text::new().ln(styled(s.as_str(), fg_bold(Color::Cyan))).ln(raw("")).ln(typed_line(buf)).ln(raw("")).ln(
        raw(
            "type the task, e.g. `summarize README.md` — Enter runs it in a captured box layered on this box (net via the Pty+ chip) · Esc cancel",
        ),
    );
    assert(t@ =~= app.task_body(box_name@, session@, buf@));
    t
}

/// The question for an address.
pub open spec fn browser_body(buf: Seq<char>) -> Seq<LineV> {
    seq![
        typed(buf),
        raw_line(""@),
        raw_line(
            "carbonyl (Chromium in the terminal) in the persistent BROWSER box — the profile persists and every page is captured to the box's web archive"@,
        ),
        raw_line("Enter open · Esc cancel"@),
    ]
}

fn browser_text(buf: &str) -> (r: Text)
    ensures
        r@ == browser_body(buf@),
{
    let t: Text = Text::new().ln(typed_line(buf)).ln(raw("")).ln(
        raw(
            "carbonyl (Chromium in the terminal) in the persistent BROWSER box — the profile persists and every page is captured to the box's web archive",
        ),
    ).ln(raw("Enter open · Esc cancel"));
    assert(t@ =~= browser_body(buf@));
    t
}

/// A question that is answered with yes or no.
pub open spec fn confirm_body(prompt: Seq<char>) -> Seq<LineV> {
    seq![raw_line(prompt), raw_line(""@), raw_line("y = yes · n / Esc = cancel"@)]
}

fn confirm_text(prompt: &str) -> (r: Text)
    ensures
        r@ == confirm_body(prompt@),
{
    let t: Text = Text::new().ln(raw(prompt)).ln(raw("")).ln(raw("y = yes · n / Esc = cancel"));
    assert(t@ =~= confirm_body(prompt@));
    t
}

impl App {
    /// The text of a dialog; `conf` is the directory of the settings.
    pub open spec fn modal_body(self, m: ModalV, conf: Seq<char>) -> Seq<LineV> {
        match m {
            ModalV::Confirm { prompt, action } => confirm_body(prompt),
            ModalV::Search { view, rows, sel, field } => filter_body(rows, sel, field),
            ModalV::RuleForm { buf, editing } => typed_body(
                buf,
                "e.g.  discard **/*.log   ·   Enter save · Esc cancel"@,
            ),
            ModalV::VarQuery { buf } => typed_body(
                buf,
                "one word matches NAME or VALUE (substring); two words = NAME VALUE; globs ok · Enter · Esc"@,
            ),
            ModalV::PtyCmd { buf } => typed_body(buf, cmd_help(buf)),
            ModalV::BrowserUrl { buf, spki } => browser_body(buf),
            ModalV::ActionMenu { title, items, sel } => menu_body(title, items, sel),
            ModalV::Launcher { items, sel } => self.launcher_body(items, sel),
            ModalV::ImagePicker { crumbs, stack } => picker_body(crumbs, stack),
            ModalV::ImageRef { buf } => typed_body(
                buf,
                "e.g. ubuntu:24.04 · ghcr.io/org/img:tag · oci-archive:/path.tar — short names resolve via /etc/containers · Enter pull · Esc cancel"@,
            ),
            ModalV::OaitaTask { box_name, session, buf } => self.task_body(box_name, session, buf),
            ModalV::ModelPicker { models, source, sel, loading } => models_body(models, source, sel, loading, conf),
            ModalV::ModelUrl { buf } => typed_body(
                buf,
                "paste a GGUF URL (e.g. https://huggingface.co/…/model-Q4_K_M.gguf) — Enter downloads it in a box & serves it · Esc cancel"@,
            ),
            ModalV::ApiConfig { base_url, model, api_key, slot, result, testing } => endpoint_body(
                base_url,
                model,
                api_key,
                slot,
                result,
                testing,
            ),
        }
    }
}

fn modal_text(app: &App, m: &Modal, conf: &str) -> (r: Text)
    ensures
        r@ == app.modal_body(m@, conf@),
{
    match m {
        Modal::Confirm { prompt, action: _ } => confirm_text(prompt.as_str()),
        Modal::Search { view: _, rows, sel, field } => filter_text(rows, *sel, *field),
        Modal::RuleForm { buf, editing: _ } => typed_text(
            buf.as_str(),
            "e.g.  discard **/*.log   ·   Enter save · Esc cancel",
        ),
        Modal::VarQuery { buf } => typed_text(
            buf.as_str(),
            "one word matches NAME or VALUE (substring); two words = NAME VALUE; globs ok · Enter · Esc",
        ),
        Modal::PtyCmd { buf } => typed_text(buf.as_str(), help_of_cmd(buf.as_str())),
        Modal::BrowserUrl { buf, spki: _ } => browser_text(buf.as_str()),
        Modal::ActionMenu { title, items, sel } => menu_text(title.as_str(), items, *sel),
        Modal::Launcher { items, sel } => launcher_text(app, items, *sel),
        Modal::ImagePicker { crumbs, stack } => picker_text(crumbs, stack),
        Modal::ImageRef { buf } => typed_text(
            buf.as_str(),
            "e.g. ubuntu:24.04 · ghcr.io/org/img:tag · oci-archive:/path.tar — short names resolve via /etc/containers · Enter pull · Esc cancel",
        ),
        Modal::OaitaTask { box_name, session, buf } => task_text(app, box_name.as_str(), session.as_str(), buf.as_str()),
        Modal::ModelPicker { models, source, sel, loading } => models_text(models, source.as_str(), *sel, *loading, conf),
        Modal::ModelUrl { buf } => typed_text(
            buf.as_str(),
            "paste a GGUF URL (e.g. https://huggingface.co/…/model-Q4_K_M.gguf) — Enter downloads it in a box & serves it · Esc cancel",
        ),
        Modal::ApiConfig { base_url, model, api_key, slot, result, testing } => endpoint_text(
            base_url.as_str(),
            model.as_str(),
            api_key.as_str(),
            *slot,
            result.as_str(),
            *testing,
        ),
    }
}

/// The title of a dialog.
pub open spec fn modal_title(m: ModalV) -> Seq<char> {
    match m {
        ModalV::Confirm { .. } => " confirm "@,
        ModalV::Search { .. } => " filter "@,
        ModalV::RuleForm { buf, editing } => if editing is Some { " edit rule "@ } else { " new rule "@ },
        ModalV::VarQuery { .. } => " variable query "@,
        ModalV::PtyCmd { .. } => " run on a PTY "@,
        ModalV::BrowserUrl { .. } => " open in browser "@,
        ModalV::ActionMenu { .. } => " actions "@,
        ModalV::Launcher { .. } => " new PTY "@,
        ModalV::ImagePicker { .. } => " new box from image "@,
        ModalV::ImageRef { .. } => " image reference "@,
        ModalV::OaitaTask { .. } => " agent task "@,
        ModalV::ModelPicker { .. } => " local model picker "@,
        ModalV::ModelUrl { .. } => " custom model URL "@,
        ModalV::ApiConfig { .. } => " configure external API "@,
    }
}

fn title_of_modal(m: &Modal) -> (r: &'static str)
    ensures
        r@ == modal_title(m@),
{
    match m {
        Modal::Confirm { .. } => " confirm ",
        Modal::Search { .. } => " filter ",
        Modal::RuleForm { buf: _, editing } => if editing.is_some() {
            " edit rule "
        } else {
            " new rule "
        },
        Modal::VarQuery { .. } => " variable query ",
        Modal::PtyCmd { .. } => " run on a PTY ",
        Modal::BrowserUrl { .. } => " open in browser ",
        Modal::ActionMenu { .. } => " actions ",
        Modal::Launcher { .. } => " new PTY ",
        Modal::ImagePicker { .. } => " new box from image ",
        Modal::ImageRef { .. } => " image reference ",
        Modal::OaitaTask { .. } => " agent task ",
        Modal::ModelPicker { .. } => " local model picker ",
        Modal::ModelUrl { .. } => " custom model URL ",
        Modal::ApiConfig { .. } => " configure external API ",
    }
}

/// The height that a dialog would like to have.
pub open spec fn modal_rows(m: ModalV) -> int {
    match m {
        ModalV::Search { view, rows, sel, field } => rows.len() as int + 6,
        ModalV::ActionMenu { title, items, sel } => items.len() as int + 5,
        ModalV::Launcher { items, sel } => items.len() as int + 8,
        ModalV::ImagePicker { crumbs, stack } => (if stack.len() > 0 { 2 * stack.last().items.len() as int } else { 0 }) + 6,
        ModalV::ModelPicker { models, source, sel, loading } => (if models.len() < 17 {
            models.len() as int + 1
        } else {
            18
        }) + 7,
        ModalV::ApiConfig { .. } => 11,
        _ => 7,
    }
}

/// The height of a dialog in an area of that height.
pub open spec fn modal_height(m: ModalV, height: u16) -> u16 {
    if modal_rows(m) < height { modal_rows(m) as u16 } else { height }
}

fn capped(n: usize, more: u32, height: u16) -> (r: u16)
    requires
        more <= 100,
    ensures
        r as int == (if n + more < height { n + more } else { height as int }),
{
    if n < 70000 && n as u32 + more < height as u32 {
        (n as u32 + more) as u16
    } else {
        height
    }
}

fn height_of_modal(m: &Modal, height: u16) -> (r: u16)
    ensures
        r == modal_height(m@, height),
{
    match m {
        Modal::Search { view: _, rows, sel: _, field: _ } => {
            assert(rows_v(rows@).len() == rows@.len());
            capped(rows.len(), 6, height)
        },
        Modal::ActionMenu { title: _, items, sel: _ } => {
            assert(items_v(items@).len() == items@.len());
            capped(items.len(), 5, height)
        },
        Modal::Launcher { items, sel: _ } => {
            assert(items_v(items@).len() == items@.len());
            capped(items.len(), 8, height)
        },
        Modal::ImagePicker { crumbs: _, stack } => {
            assert(levels_v(stack@).len() == stack@.len());
            if stack.len() > 0 {
                let l: &PickLevel = &stack[stack.len() - 1];
                assert(levels_v(stack@).last() == l@);
                assert(picks(l.items@).len() == l.items@.len());
                let n: usize = l.items.len();
                capped(if n < 70000 { 2 * n } else { n }, 6, height)
            } else {
                capped(0, 6, height)
            }
        },
        Modal::ModelPicker { models, source: _, sel: _, loading: _ } => {
            assert(models_v(models@).len() == models@.len());
            let n: usize = models.len();
            capped(if n < 17 { n + 1 } else { 18 }, 7, height)
        },
        Modal::ApiConfig { .. } => capped(11, 0, height),
        _ => capped(7, 0, height),
    }
}

/// Where a dialog stands: in the middle, seven tenths of the width, twenty columns at least.
pub open spec fn modal_rect(area: Rect, m: ModalV) -> Rect {
    let w = if area.width * 7 / 10 > 20 { area.width * 7 / 10 } else { 20 };
    let h = modal_height(m, area.height);
    Rect {
        x: (area.x + (area.width - w) / 2) as u16,
        y: (area.y + (area.height - h) / 2) as u16,
        width: w as u16,
        height: h,
    }
}

impl App {
    /// A dialog on the screen.
    pub open spec fn modal_picture(self, area: Rect, m: ModalV, conf: Seq<char>) -> Seq<WidgetV> {
        seq![
            WidgetV::Clear(modal_rect(area, m)),
            WidgetV::Para {
                area: modal_rect(area, m),
                frame: Some(FrameV { title: modal_title(m), style: fg_bold(Color::Yellow), double: false }),
                text: self.modal_body(m, conf),
                scroll: 0,
                wrap: true,
            },
        ]
    }
}

/// Puts a dialog on the screen, over the area; `conf` is the directory of the settings.
pub fn draw_modal(out: Canvas, area: Rect, m: &Modal, app: &App, conf: &str) -> (r: Canvas)
    requires
        area.fits(),
        20 <= area.width,
    ensures
        r@ == out@ + app.modal_picture(area, m@, conf@),
        modal_rect(area, m@).within(area),
{
    let ghost o = out@;
    let seventy: u32 = area.width as u32 * 7 / 10;
    let w: u16 = if seventy > 20 { seventy as u16 } else { 20 };
    let h: u16 = height_of_modal(m, area.height);
    let rect: Rect = Rect {
        x: area.x + (area.width - w) / 2,
        y: area.y + (area.height - h) / 2,
        width: w,
        height: h,
    };
    let r: Canvas = out.put(Widget::Clear(rect)).put(
        Widget::Para {
            area: rect,
            frame: Some(Frame { title: own(title_of_modal(m)), style: fg_bold(Color::Yellow), double: false }),
            text: modal_text(app, m, conf),
            scroll: 0,
            wrap: true,
        },
    );
    assert(rect == modal_rect(area, m@));
    assert(r@ =~= o + app.modal_picture(area, m@, conf@));
    r
}

/// A key of an endpoint is never shown: what stands in its place depends on its length alone, and
/// on no more of that than that it is long.
pub proof fn law_keys_are_not_shown(a: Seq<char>, b: Seq<char>)
    requires
        a.len() == b.len() || (a.len() >= 24 && b.len() >= 24),
    ensures
        masked(a) == masked(b),
{
}

} // verus!
