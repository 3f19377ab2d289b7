use sarun_ui::app::{App, Env, Step};
use sarun_ui::boxes::holds_key;
use sarun_ui::control::dispatch_pane_key;
use sarun_ui::fmt::{scroll_for_cursor, tail_trunc};
use sarun_ui::images::{build_image_picker, image_catalog, ContainersConf};
use sarun_ui::json::Json;
use sarun_ui::keys::{menubar_chips, KeyCode, Mods};
use sarun_ui::menus::{open_pty_menu, run_action};
use sarun_ui::modals::handle_modal_key;
use sarun_ui::num::Real;
use sarun_ui::outside::Rect;
use sarun_ui::plan::Turn;
use sarun_ui::screen::{divide, draw, Given};
use sarun_ui::terms::pty_grid_rect;
use sarun_ui::types::{Action, ApiField, ClauseField, FilterView, Modal, Pane, PickLevel, PickNext, PtyInfo};

const NO_MODS: Mods = Mods { ctrl: false, alt: false, shift: false };

fn headless_app() -> App {
    let env = Env { sock: String::new(), exe: "sarun".into(), shell: "/bin/sh".into() };
    App::blank(env, true, Pane::Help, "")
}

/// The steps that the client asks for, none of them carried out.
fn outside(app: &mut App) -> Vec<Step> {
    let mut steps = vec![];
    for _ in 0..1000 {
        match app.next() {
            Turn::Idle => break,
            Turn::Done => {}
            Turn::Outside(s) => steps.push(s),
        }
    }
    steps
}

fn numbered(key: &str, ids: &[i64]) -> Vec<Json> {
    ids.iter().map(|n| Json::obj().with(key, Json::Int(*n))).collect()
}

#[test]
fn a_moved_rule_moves_back() {
    let mut app = headless_app();
    app.ui.focus = Pane::Rules;
    app.side.rules = vec!["apply a".into(), "discard b".into(), "apply c".into()];
    app.side.sel_rule = 0;
    app.move_rule(true);
    assert_eq!(app.side.sel_rule, 1);
    assert_eq!(app.side.rules, vec!["discard b", "apply a", "apply c"]);
    app.move_rule(false);
    assert_eq!(app.side.sel_rule, 0);
    assert_eq!(app.side.rules, vec!["apply a", "discard b", "apply c"]);
    let steps = outside(&mut app);
    assert!(
        matches!(&steps[0], Step::WriteRules(t) if t == "apply a\ndiscard b\napply c\n"),
        "{steps:?}"
    );
    app.move_rule(false);
    assert_eq!(app.side.sel_rule, 0, "the first rule does not move up");
}

#[test]
fn esc_closes_every_dialog() {
    let pick = PickLevel { items: vec![], sel: 0 };
    for modal in [
        Modal::RuleForm { buf: "apply".into(), editing: None },
        Modal::PtyCmd { buf: "bash".into() },
        Modal::BrowserUrl { buf: String::new(), spki: String::new() },
        Modal::VarQuery { buf: "CC".into() },
        Modal::ActionMenu { title: "actions".into(), items: vec![], sel: 0 },
        Modal::ImagePicker { crumbs: vec![], stack: vec![pick] },
        Modal::ImageRef { buf: "alpine".into() },
        Modal::Launcher { items: vec![], sel: 0 },
        Modal::OaitaTask { box_name: "B".into(), session: "s".into(), buf: String::new() },
        Modal::ModelPicker { models: vec![], source: String::new(), sel: 0, loading: true },
        Modal::ModelUrl { buf: String::new() },
        Modal::Search { view: FilterView::Procs, rows: vec![], sel: 0, field: ClauseField::Pattern },
    ] {
        let mut app = headless_app();
        app.ui.modal = Some(modal);
        handle_modal_key(&mut app, KeyCode::Esc, NO_MODS);
        assert!(app.ui.modal.is_none());
        assert!(outside(&mut app).is_empty());
    }
}

#[test]
fn a_typed_character_is_taken_back() {
    let mut app = headless_app();
    app.ui.modal = Some(Modal::ImageRef { buf: "alpin".into() });
    handle_modal_key(&mut app, KeyCode::Char('é'), NO_MODS);
    assert!(matches!(&app.ui.modal, Some(Modal::ImageRef { buf }) if buf == "alpiné"));
    handle_modal_key(&mut app, KeyCode::Backspace, NO_MODS);
    assert!(matches!(&app.ui.modal, Some(Modal::ImageRef { buf }) if buf == "alpin"));
}

#[test]
fn the_picker_leads_back_to_the_level_above() {
    let conf = ContainersConf { sources: vec![], aliases: vec![], resolved: vec![] };
    let top = build_image_picker(&conf, &image_catalog(None), &vec![]);
    let entries = top.len();
    assert!(matches!(&top[entries - 1].next, PickNext::EnterRef(r) if r.is_empty()), "any reference can be entered");
    let mut app = headless_app();
    app.ui.modal = Some(Modal::ImagePicker { crumbs: vec![], stack: vec![PickLevel { items: top, sel: 0 }] });
    handle_modal_key(&mut app, KeyCode::Enter, NO_MODS);
    handle_modal_key(&mut app, KeyCode::Backspace, NO_MODS);
    let Some(Modal::ImagePicker { crumbs, stack }) = &app.ui.modal else {
        panic!("Backspace must lead back");
    };
    assert!(crumbs.is_empty());
    assert_eq!((stack.len(), stack[0].sel, stack[0].items.len()), (1, 0, entries));
    assert!(outside(&mut app).is_empty());
}

#[test]
fn a_chosen_chip_is_its_letter() {
    for (at, (letter, _)) in menubar_chips(&headless_app()).into_iter().enumerate() {
        let mut chosen = headless_app();
        chosen.ui.menu_nav = true;
        chosen.ui.menu_sel = at;
        chosen.on_key(KeyCode::Enter, NO_MODS, 0);
        let mut typed = headless_app();
        typed.ui.menu_nav = true;
        typed.on_key(KeyCode::Char(letter), NO_MODS, 0);
        assert_eq!(chosen.ui.focus, typed.ui.focus, "{letter}");
        assert_eq!(chosen.ui.should_quit, typed.ui.should_quit, "{letter}");
        assert_eq!(format!("{:?}", outside(&mut chosen)), format!("{:?}", outside(&mut typed)), "{letter}");
    }
}

#[test]
fn destruction_is_asked_about_first() {
    for key in ['K', 'D'] {
        let mut app = headless_app();
        app.ui.focus = Pane::Sessions;
        assert!(dispatch_pane_key(&mut app, KeyCode::Char(key)));
        assert!(matches!(app.ui.modal, Some(Modal::Confirm { .. })));
        assert!(outside(&mut app).is_empty(), "nothing is done before the answer");
    }
}

#[test]
fn a_question_gets_its_keys_first() {
    let mut app = headless_app();
    app.ui.focus = Pane::Changes;
    app.jobs.prompt = Some(Json::obj().with("id", Json::Int(7)).with("host", Json::text("a.example")));
    app.on_key(KeyCode::Char('d'), NO_MODS, 0);
    assert!(!app.ui.should_quit, "'d' answers the question in place of detaching");
    assert!(app.jobs.prompt.is_none());
    let steps = outside(&mut app);
    let Step::Call { verb, args, .. } = &steps[0] else {
        panic!("{steps:?}");
    };
    assert_eq!(*verb, "prompts.answer");
    assert_eq!(args[0].as_i64(), Some(7));
    app.on_key(KeyCode::Char('d'), NO_MODS, 0);
    assert!(app.ui.should_quit, "without a question 'd' detaches");
}

#[test]
fn a_list_that_is_opened_again_keeps_its_row() {
    let mut app = headless_app();
    app.lists.pipelines.rows = numbered("id", &[4, 9, 2]);
    app.repin(FilterView::Pipelines, 0, Some(9));
    assert_eq!(app.lists.pipelines.sel, 1);
    app.repin(FilterView::Pipelines, 5, Some(77));
    assert_eq!(app.lists.pipelines.sel, 2, "a row that is gone leaves the cursor where it was, or on the last row");
    app.lists.changes.rows = ["a", "b"].iter().map(|p| Json::obj().with("path", Json::text(p))).collect();
    app.diff.pin = Some("b".into());
    app.repin_path(0);
    assert_eq!(app.cur_change_path(), Some("b"));
}

#[test]
fn the_cursor_passes_over_connections() {
    let mut app = headless_app();
    app.ui.focus = Pane::Changes;
    app.lists.changes.rows = [("a", false), ("b", true), ("b/c", false)]
        .iter()
        .map(|(p, c)| Json::obj().with("path", Json::text(p)).with("connector", Json::Bool(*c)))
        .collect();
    app.lists.changes.total = 3;
    app.move_down();
    outside(&mut app);
    assert_eq!(app.lists.changes.sel, 2);
    app.move_up();
    outside(&mut app);
    assert_eq!(app.lists.changes.sel, 0);
}

#[test]
fn a_selection_belongs_to_one_list() {
    let mut app = headless_app();
    app.boxes.marks.keys = vec!["a".into()];
    app.boxes.marks.scope = Some(Pane::Changes);
    app.lists.changes.rows = vec![Json::obj().with("path", Json::text("a"))];
    app.ui.focus = Pane::Changes;
    assert_eq!(app.marked_here(), vec!["a"]);
    assert!(app.is_marked("a"));
    app.ui.focus = Pane::Sessions;
    assert!(app.marked_here().is_empty());
    assert!(!app.is_marked("a"));
    assert!(holds_key(&app.boxes.marks.keys, "a"));
}

#[test]
fn the_network_mode_is_changed_once() {
    let mut app = headless_app();
    app.jobs.launch.tap_ok = false;
    open_pty_menu(&mut app);
    assert!(app.jobs.launch.bumped);
    let net = app.jobs.launch.net;
    open_pty_menu(&mut app);
    assert!(app.jobs.launch.net == net);
}

#[test]
fn tab_goes_to_the_diff_and_back() {
    let mut app = headless_app();
    app.ui.focus = Pane::Changes;
    app.next_pane();
    assert_eq!(app.ui.focus, Pane::Hunks);
    app.next_pane();
    assert_eq!(app.ui.focus, Pane::Changes);
}

#[test]
fn other_boxes_change_nothing() {
    let mut app = headless_app();
    app.ui.focus = Pane::Changes;
    app.boxes.sessions = vec![Json::obj().with("session_id", Json::text("1"))];
    for kind in ["overlay", "process_added"] {
        app.on_event(&Json::obj().with("type", Json::text(kind)).with("sid", Json::text("2")));
        assert!(outside(&mut app).is_empty(), "{kind}");
    }
    app.on_event(&Json::obj().with("type", Json::text("overlay")).with("sid", Json::text("1")));
    assert!(!outside(&mut app).is_empty());
}

#[test]
fn what_is_too_long_keeps_its_end() {
    assert_eq!(tail_trunc("abcdef", 4), "…def");
    assert_eq!(tail_trunc("abcd", 4), "abcd");
    for cursor in 0..40 {
        let first = scroll_for_cursor(cursor, 40, 12) as usize;
        assert!(first <= cursor && cursor < first + 10, "{cursor} {first}");
    }
}

#[test]
fn a_terminal_is_fitted_to_where_it_is_drawn() {
    let mut app = headless_app();
    app.terms.ptys = vec![PtyInfo { eof: false, rows: 24, cols: 80 }];
    for (focus, in_right) in [(Pane::Pty, false), (Pane::Sessions, true)] {
        app.ui.focus = focus;
        app.terms.in_right = in_right;
        for cols in [90, 92, 93, 100, 111, 132, 199] {
            for rows in [7, 24, 50] {
                let part = divide(&app, Rect { x: 0, y: 0, width: cols, height: rows }).bottom;
                assert_eq!(pty_grid_rect(&app, cols, rows), Some(part), "{cols} {rows}");
                app.fit_active_pty(cols, rows);
                let p = app.terms.ptys[0];
                assert_eq!((p.cols, p.rows), (part.width, part.height), "{cols} {rows}");
            }
        }
    }
}

#[test]
fn the_parts_of_a_screen_follow_each_other() {
    let mut app = headless_app();
    app.ui.focus = Pane::Changes;
    for rows in 7..60 {
        for cols in [20, 30, 50, 77, 90, 110, 130, 250] {
            let p = divide(&app, Rect { x: 3, y: 2, width: cols, height: rows });
            let bars: Vec<(u16, u16)> =
                [p.menubar, p.body, p.cmdline, p.fkeybar, p.status].iter().map(|r| (r.y - 2, r.height)).collect();
            assert_eq!(bars, vec![(0, 1), (1, rows - 4), (rows - 3, 1), (rows - 2, 1), (rows - 1, 1)]);
            let list = (45 * cols + 50) / 100;
            assert_eq!((p.left.x, p.left.width), (3, list), "{cols}");
            assert_eq!((p.right.x, p.right.width), (3 + list, cols - list), "{cols}");
            let strip = if p.right.height < 7 { p.right.height - 3 } else { 4 };
            assert_eq!((p.top.y, p.top.height), (3, strip), "{rows}");
            assert_eq!((p.bottom.y, p.bottom.height), (3 + strip, p.right.height - strip), "{rows}");
        }
    }
}

#[test]
fn a_selection_of_changes_ends_with_its_box() {
    let mut app = headless_app();
    app.boxes.sessions = ["1", "2"].iter().map(|s| Json::obj().with("session_id", Json::text(s))).collect();
    app.lists.changes.rows = vec![Json::obj().with("path", Json::text("a"))];
    app.ui.focus = Pane::Changes;
    app.toggle_mark();
    assert_eq!(app.marked_here(), vec!["a"]);
    app.ui.focus = Pane::Sessions;
    app.move_down();
    assert_eq!(app.boxes.sel, 1);
    app.ui.focus = Pane::Changes;
    assert!(app.marked_here().is_empty());
    app.ui.focus = Pane::Sessions;
    app.toggle_mark();
    app.move_up();
    assert_eq!(app.marked_here(), vec!["2"], "a selection of boxes stays");
}

#[test]
fn a_range_selects_all_between() {
    let mut app = headless_app();
    app.ui.focus = Pane::Changes;
    app.lists.changes.rows = ["a", "b", "c", "d"].iter().map(|p| Json::obj().with("path", Json::text(p))).collect();
    app.lists.changes.sel = 3;
    app.toggle_mark();
    app.lists.changes.sel = 1;
    app.range_mark();
    assert_eq!(app.marked_here(), vec!["b", "c", "d"]);
    app.on_key(KeyCode::Esc, NO_MODS, 0);
    assert!(app.marked_here().is_empty());
    assert_eq!(app.ui.status, "selection cleared");
}

#[test]
fn terminals_are_gone_to_and_left() {
    let mut app = headless_app();
    app.pty_opened(Ok((24, 80)));
    app.pty_opened(Ok((24, 80)));
    app.on_key(KeyCode::F(12), NO_MODS, 0);
    assert_eq!((app.ui.focus, app.terms.ptys.len(), app.terms.sel), (Pane::Sessions, 2, 1), "left, not ended");
    app.ui.right_focused = true;
    app.ui.right_scroll = 3;
    app.pty_ended(1);
    app.on_key(KeyCode::Char('P'), NO_MODS, 0);
    assert_eq!((app.ui.focus, app.terms.sel), (Pane::Pty, 0), "the one that still runs");
    assert!(!app.ui.right_focused && app.ui.right_scroll == 0);
    app.on_key(KeyCode::F(8), NO_MODS, 0);
    app.on_key(KeyCode::Char('x'), NO_MODS, 0);
    assert_eq!((app.ui.focus, app.terms.ptys.len(), app.terms.sel), (Pane::Sessions, 0, 0));
}

#[test]
fn one_image_is_fetched_at_a_time() {
    let mut app = headless_app();
    app.start_image_load("alpine".into());
    assert_eq!(outside(&mut app).len(), 1);
    app.start_image_load("debian".into());
    assert!(outside(&mut app).is_empty());
    assert_eq!(app.ui.status, "an image load is already running");
}

#[test]
fn models_are_offered_once() {
    let mut app = headless_app();
    app.maybe_offer_model_picker();
    assert_eq!(outside(&mut app).len(), 1);
    app.api_status_reply(Ok(Json::obj().with("kind", Json::text("none"))));
    assert!(matches!(app.ui.modal, Some(Modal::ModelPicker { .. })));
    app.ui.modal = None;
    let _ = outside(&mut app);
    app.maybe_offer_model_picker();
    assert!(outside(&mut app).is_empty());
}

#[test]
fn the_detail_stops_at_its_end() {
    let mut app = headless_app();
    app.ui.focus = Pane::Rules;
    app.ui.right_focused = true;
    app.ui.right_scroll_max = 5;
    for _ in 0..3 {
        app.page_down();
        assert_eq!(app.ui.right_scroll, 5);
    }
    app.move_up();
    assert_eq!(app.ui.right_scroll, 4);
    app.move_home();
    assert_eq!(app.ui.right_scroll, 0);
    app.move_end();
    assert_eq!(app.ui.right_scroll, 5);
}

#[test]
fn a_typed_filter_survives_navigation() {
    let mut app = headless_app();
    app.filters.procs.on = true;
    app.install_nav_filter(FilterView::Procs, None);
    assert!(app.filters.procs.on && !app.filters.procs.generated);
    app.install_nav_filter(FilterView::Procs, Some(vec![3, 4]));
    assert!(app.filters.procs.generated);
    assert_eq!(app.filters.procs.clauses[0].m.pattern, "3,4");
    app.install_nav_filter(FilterView::Procs, None);
    assert!(!app.filters.procs.on && app.filters.procs.clauses.is_empty());
}

#[test]
fn every_detail_gets_a_scroll_focus() {
    for focus in [Pane::Network, Pane::ApiLogs, Pane::Sessions, Pane::Flows, Pane::Vars, Pane::Rules] {
        let mut app = headless_app();
        app.ui.focus = focus;
        assert!(app.right_pane_scrollable(), "{focus:?}");
    }
    for focus in [Pane::Changes, Pane::Hunks, Pane::Help, Pane::Pty] {
        let mut app = headless_app();
        app.ui.focus = focus;
        assert!(!app.right_pane_scrollable(), "{focus:?}");
    }
    let mut app = headless_app();
    app.ui.focus = Pane::Network;
    app.ui.right_scroll_max = 9;
    app.next_pane();
    app.move_down();
    assert!(app.ui.right_focused && app.ui.right_scroll == 1);
}

#[test]
fn long_keys_look_alike() {
    let shown = |key: &str| {
        let mut app = headless_app();
        app.ui.modal = Some(Modal::ApiConfig {
            base_url: String::new(),
            model: String::new(),
            api_key: key.into(),
            slot: ApiField::Model,
            result: String::new(),
            testing: false,
        });
        let g = Given { detail: None, rule: None, rules_path: String::new(), conf: String::new(), now: Real::of_float(0) };
        format!("{:?}", draw(&mut app, Rect { x: 0, y: 0, width: 100, height: 40 }, &g))
    };
    assert_eq!(shown("abcdef"), shown("ghijkl"));
    assert_eq!(shown(&"a".repeat(24)), shown(&"b".repeat(60)));
    assert_ne!(shown("abc"), shown("abcd"));
}

#[test]
fn ended_terminals_are_dropped_when_they_are_left() {
    let mut app = headless_app();
    for cols in [80, 81, 82] {
        app.pty_opened(Ok((24, cols)));
    }
    let _ = outside(&mut app);
    app.pty_ended(2);
    app.pty_next();
    assert_eq!((app.terms.sel, app.terms.ptys.len(), app.terms.ptys[0].cols), (0, 2, 80));
    assert!(matches!(outside(&mut app)[..], [Step::ClosePty(2)]));
    app.pty_ended(0);
    app.pty_prev();
    assert_eq!((app.terms.sel, app.terms.ptys.len(), app.terms.ptys[0].cols), (0, 1, 81));
    assert!(matches!(outside(&mut app)[..], [Step::ClosePty(0)]));
    app.pty_ended(0);
    app.pty_next();
    assert_eq!((app.terms.sel, app.terms.ptys.len()), (0, 1), "the only one is not left");
    assert!(outside(&mut app).is_empty());
}

#[test]
fn packets_of_the_same_stream_are_shown_again() {
    let mut app = headless_app();
    app.boxes.sessions = vec![Json::obj().with("session_id", Json::text("1"))];
    app.side.flows.rows = vec![Json::obj().with("frame", Json::Int(12)).with("stream", Json::Int(7))];
    app.ui.focus = Pane::Flows;
    app.open_packets();
    let Turn::Outside(Step::Call { verb, then, .. }) = app.next() else {
        panic!("the packets are asked for");
    };
    assert_eq!(verb, "flows.packets");
    let packets = Json::obj().with("ok", Json::Bool(true)).with("packets", Json::Arr(numbered("frame", &[11, 12, 13])));
    app.answer(then, Ok(packets));
    let Turn::Done = app.next() else { panic!("the text of the packet is looked for") };
    let Turn::Outside(Step::Call { verb, then, .. }) = app.next() else {
        panic!("the text of the packet is asked for");
    };
    assert_eq!(verb, "flows.detail");
    app.answer(then, Ok(Json::obj().with("ok", Json::Bool(true)).with("text", Json::text("Frame 12"))));
    assert_eq!((app.ui.focus, app.side.packets.sel), (Pane::Packets, 1));
    app.close_packets();
    app.open_packets();
    assert!(outside(&mut app).is_empty(), "nothing is asked for");
    assert_eq!((app.ui.focus, app.side.packets.sel, app.side.packets.rows.len()), (Pane::Packets, 1, 3));
    assert_eq!(app.side.packets.detail, "Frame 12");
    app.close_packets();
    app.boxes.sessions = vec![Json::obj().with("session_id", Json::text("2"))];
    app.open_packets();
    assert_eq!(outside(&mut app).len(), 1, "another box has packets of its own");
}

#[test]
fn errors_only_ends_with_its_pane() {
    for key in [KeyCode::Char('P'), KeyCode::F(1), KeyCode::Char('b')] {
        let mut app = headless_app();
        app.pty_opened(Ok((24, 80)));
        app.ui.focus = Pane::Outputs;
        app.lists.outputs.view = Some(5);
        app.shown.err_only = true;
        app.on_key(key, NO_MODS, 0);
        assert!(!app.shown.err_only, "{key:?}");
        let steps = outside(&mut app);
        assert!(matches!(&steps[0], Step::Call { verb, .. } if *verb == "view.filter"), "{key:?} {steps:?}");
        assert_ne!(app.ui.focus, Pane::Outputs);
    }
}

#[test]
fn a_terminal_has_the_screen_or_a_part_of_it() {
    let mut app = headless_app();
    app.pty_opened(Ok((24, 80)));
    app.on_key(KeyCode::F(11), NO_MODS, 0);
    assert_eq!((app.ui.focus, app.terms.in_right), (Pane::Sessions, true));
    app.ui.right_focused = false;
    app.on_key(KeyCode::Char('P'), NO_MODS, 0);
    assert_eq!((app.ui.focus, app.terms.in_right), (Pane::Pty, false));
    app.on_key(KeyCode::F(11), NO_MODS, 0);
    app.pty_opened(Ok((24, 80)));
    assert_eq!((app.ui.focus, app.terms.in_right), (Pane::Pty, false));
    run_action(&mut app, Action::PtyEmbedToggle);
    assert_eq!((app.ui.focus, app.terms.in_right), (Pane::Sessions, true));
    run_action(&mut app, Action::PtyEmbedToggle);
    assert_eq!((app.ui.focus, app.terms.in_right), (Pane::Sessions, false));
}
