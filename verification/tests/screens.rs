use ratatui::backend::TestBackend;
use ratatui::widgets::{Block, Borders, Clear, Paragraph, Wrap};
use ratatui::Terminal;
use serde_json::Value;

use sarun_ui::app::{App, Env, NetMode, Step};
use sarun_ui::canvas::{Canvas, Widget};
use sarun_ui::control::dispatch_pane_key;
use sarun_ui::images::{build_image_picker, image_catalog, Candidate, ContainersConf, Resolved};
use sarun_ui::jobs::endpoint_note_lines;
use sarun_ui::json::Json;
use sarun_ui::keys::{confirm_keys, pane_action_keys, pane_keys, ConfirmKey, KeyCode, Mods};
use sarun_ui::launch::{build_launch, How, LaunchTarget, Placement};
use sarun_ui::menus::{open_pty_menu, pane_action_menu};
use sarun_ui::modals::handle_modal_key;
use sarun_ui::outside::Rect;
use sarun_ui::plan::Turn;
use sarun_ui::rulepane::{FileRule, RuleAction};
use sarun_ui::rules::{Clause, Join, Match};
use sarun_ui::num::Real;
use sarun_ui::screen::{draw, Given};
use sarun_ui::types::{Action, ApiField, ConfirmAction, Modal, ModelRow, Pane, PickItem, PickLevel, PickNext};

/// A JSON value from its text.
fn j(text: &str) -> Json {
    json_of(&serde_json::from_str::<Value>(text).unwrap())
}

fn json_of(v: &Value) -> Json {
    match v {
        Value::Null => Json::Null,
        Value::Bool(b) => Json::Bool(*b),
        Value::Number(n) => match (n.as_i64(), n.as_u64()) {
            (Some(i), _) => Json::Int(i),
            (None, Some(u)) => Json::Big(u),
            _ => Json::Real(Real::of_float(n.as_f64().unwrap().to_bits()), n.to_string()),
        },
        Value::String(s) => Json::Str(s.clone()),
        Value::Array(a) => Json::Arr(a.iter().map(json_of).collect()),
        Value::Object(m) => Json::Obj(m.iter().map(|(k, v)| (k.clone(), json_of(v))).collect()),
    }
}

fn rows(text: &str) -> Vec<Json> {
    match j(text) {
        Json::Arr(v) => v,
        other => vec![other],
    }
}

fn headless_app() -> App {
    let env = Env { sock: String::new(), exe: "sarun".into(), shell: "/bin/sh".into() };
    App::blank(env, true, Pane::Help, "")
}

fn given() -> Given {
    Given {
        detail: None,
        rule: None,
        rules_path: "/home/u/.config/slopbox/filerules".into(),
        conf: "/home/u/.config/slopbox".into(),
        now: Real::of_float(1_700_000_000.0f64.to_bits()),
    }
}

fn area(r: Rect) -> ratatui::layout::Rect {
    ratatui::layout::Rect { x: r.x, y: r.y, width: r.width, height: r.height }
}

/// The characters that a picture puts on a screen of that size.
fn paint(canvas: &Canvas, w: u16, h: u16) -> String {
    let mut term = Terminal::new(TestBackend::new(w, h)).unwrap();
    term.draw(|f| {
        for widget in &canvas.widgets {
            match widget {
                Widget::Para { area: a, frame, text, scroll, wrap } => {
                    let lines: Vec<ratatui::text::Line> = text
                        .lines
                        .iter()
                        .map(|l| l.spans.iter().map(|s| s.text.clone()).collect::<Vec<String>>().concat().into())
                        .collect();
                    let mut p = Paragraph::new(lines).scroll((*scroll, 0));
                    if *wrap {
                        p = p.wrap(Wrap { trim: false });
                    }
                    if let Some(fr) = frame {
                        p = p.block(Block::default().borders(Borders::ALL).title(fr.title.clone()));
                    }
                    f.render_widget(p, area(*a));
                }
                Widget::Clear(a) => f.render_widget(Clear, area(*a)),
                Widget::Screen(_) => {}
            }
        }
    })
    .unwrap();
    format!("{}", term.backend())
}

fn render_with(app: &mut App, w: u16, h: u16, g: &Given) -> String {
    let canvas = draw(app, Rect { x: 0, y: 0, width: w, height: h }, g);
    paint(&canvas, w, h)
}

fn render(app: &mut App, w: u16, h: u16) -> String {
    render_with(app, w, h, &given())
}

const NO_MODS: Mods = Mods { ctrl: false, alt: false, shift: false };

#[test]
fn flows_pane_renders_list_and_detail() {
    let mut app = headless_app();
    app.ui.focus = Pane::Flows;
    app.side.flows.rows = rows(
        r#"[
        {"frame": 8, "t": 10.659, "src": "240.1.0.2", "dst": "240.1.1.0", "sni": "example.com",
         "host": "", "method": "", "uri": "", "status": ""},
        {"frame": 12, "t": 38.052, "src": "240.1.0.2", "dst": "240.1.1.0", "sni": "",
         "host": "example.com", "method": "GET", "uri": "/", "status": ""},
        {"frame": 15, "t": 451.428, "src": "240.1.1.0", "dst": "240.1.0.2", "sni": "",
         "host": "", "method": "", "uri": "", "status": "200"}]"#,
    );
    app.side.flows.sel = 1;
    app.side.flows.detail = "Frame 12: 480 bytes on wire\n\
                             Transmission Control Protocol\n\
                             Hypertext Transfer Protocol\n    \
                             GET / HTTP/1.1\n    \
                             Host: example.com\n"
        .into();
    app.side.flows.frame = 12;
    let buf = render(&mut app, 160, 30);
    assert!(buf.contains("FLOWS"), "flows pane title missing:\n{buf}");
    assert!(buf.contains("example.com"), "host/SNI didn't render:\n{buf}");
    assert!(buf.contains("GET"), "method didn't render:\n{buf}");
    assert!(buf.contains("200"), "status didn't render:\n{buf}");
    assert!(buf.contains("FLOW") && buf.contains("DETAIL"), "flow detail pane title missing:\n{buf}");
    assert!(buf.contains("GET / HTTP/1.1"), "tshark dissection didn't render in the right pane:\n{buf}");
}

#[test]
fn packets_pane_renders_list_and_detail() {
    let mut app = headless_app();
    app.ui.focus = Pane::Packets;
    app.side.packets_stream = 0;
    app.side.packets.rows = rows(
        r#"[
        {"frame": 1, "t": 0.000, "src": "240.1.0.2", "dst": "240.1.1.0", "proto": "TCP",
         "len": 74, "info": "33644 → 443 [SYN]"},
        {"frame": 2, "t": 0.001, "src": "240.1.1.0", "dst": "240.1.0.2", "proto": "TCP",
         "len": 74, "info": "443 → 33644 [SYN, ACK]"},
        {"frame": 8, "t": 0.011, "src": "240.1.0.2", "dst": "240.1.1.0", "proto": "TLSv1.3",
         "len": 583, "info": "Client Hello (SNI=example.com)"},
        {"frame": 12, "t": 0.038, "src": "240.1.0.2", "dst": "240.1.1.0", "proto": "HTTP",
         "len": 480, "info": "GET / HTTP/1.1"},
        {"frame": 15, "t": 0.451, "src": "240.1.1.0", "dst": "240.1.0.2", "proto": "HTTP",
         "len": 1400, "info": "HTTP/1.1 200 OK (text/html)"}]"#,
    );
    app.side.packets.sel = 3;
    app.side.packets.detail = "Frame 12: 480 bytes on wire\n\
                               Hypertext Transfer Protocol\n    \
                               GET / HTTP/1.1\n    \
                               Host: example.com\n"
        .into();
    app.side.packets.frame = 12;
    let buf = render(&mut app, 200, 30);
    assert!(buf.contains("PACKETS"), "packets pane title missing:\n{buf}");
    assert!(buf.contains("stream 0"), "stream id missing from title:\n{buf}");
    assert!(buf.contains("Client Hello"), "TLS Client Hello row missing:\n{buf}");
    assert!(buf.contains("GET /"), "HTTP info missing:\n{buf}");
    assert!(buf.contains("PACKET") && buf.contains("DETAIL"), "packet detail title missing:\n{buf}");
    assert!(buf.contains("Host: example.com"), "tshark dissection didn't render in the right pane:\n{buf}");
}

#[test]
fn packets_pane_drill_down_pops_back() {
    let mut app = headless_app();
    app.ui.focus = Pane::Flows;
    app.boxes.sessions =
        rows(r#"[{"session_id": "9999", "name": "FAKE", "path": "FAKE", "live": false}]"#);
    app.side.flows.rows = rows(
        r#"[{"frame": 12, "t": 0.0, "src": "", "dst": "", "sni": "", "host": "example.com",
         "method": "GET", "uri": "/", "status": "", "stream": 7}]"#,
    );
    app.side.flows.sel = 0;
    app.open_packets();
    fail_every_call(&mut app);
    assert!(matches!(app.ui.focus, Pane::Packets), "focus should be Packets");
    assert_eq!(app.side.packets_stream, 7);
    app.close_packets();
    assert!(matches!(app.ui.focus, Pane::Flows), "focus should be Flows");
    assert_eq!(app.side.flows.sel, 0, "flows cursor preserved across pop");
}

/// Works off the plan; every call to the engine fails.
fn fail_every_call(app: &mut App) -> Vec<String> {
    let mut verbs: Vec<String> = Vec::new();
    for _ in 0..1000 {
        match app.next() {
            Turn::Idle => return verbs,
            Turn::Done => {}
            Turn::Outside(Step::Call { verb, then, .. }) => {
                verbs.push(verb.to_string());
                app.answer(then, Err("connect: no such file".into()));
            }
            Turn::Outside(_) => {}
        }
    }
    panic!("the plan does not end");
}

#[test]
fn banner_prompt_renders_at_status_bar() {
    let mut app = headless_app();
    let plain = render(&mut app, 160, 30);
    assert!(!plain.contains("[y]es once"), "no banner should be visible without a pending prompt");
    app.jobs.prompt =
        Some(j(r#"{"id": 1, "box": "BOX3", "host": "tracker.example", "port": 443, "scheme": "https"}"#));
    let buf = render(&mut app, 160, 30);
    assert!(buf.contains("[BOX3]"), "box name missing from banner:\n{buf}");
    assert!(buf.contains("tracker.example:443"), "host:port missing from banner:\n{buf}");
    assert!(
        buf.contains("[y]es once")
            && buf.contains("[n]o once")
            && buf.contains("[a]llow+save")
            && buf.contains("[d]eny+save"),
        "all four verdicts must label-into the banner:\n{buf}"
    );
}

#[test]
fn flows_pane_cursor_moves_and_clamps() {
    let mut app = headless_app();
    app.ui.focus = Pane::Flows;
    app.side.flows.rows = (0..5)
        .map(|i| {
            j(&format!(
                r#"{{"frame": {}, "t": 0.0, "src": "240.1.0.2", "dst": "240.1.1.0", "sni": "",
                "host": "h{i}.example", "method": "GET", "uri": "/", "status": ""}}"#,
                i + 1
            ))
        })
        .collect();
    for _ in 0..10 {
        app.move_down();
        fail_every_call(&mut app);
    }
    assert_eq!(app.side.flows.sel, app.side.flows.rows.len() - 1, "down should clamp at len-1");
    for _ in 0..10 {
        app.move_up();
        fail_every_call(&mut app);
    }
    assert_eq!(app.side.flows.sel, 0, "up should clamp at 0");
    app.side.flows.rows.clear();
    app.side.flows.sel = 0;
    app.move_down();
    app.move_up();
    assert_eq!(app.side.flows.sel, 0);
}

#[test]
fn pty_menu_offers_named_destinations() {
    let mut app = headless_app();
    open_pty_menu(&mut app);
    let Some(Modal::Launcher { items, .. }) = &app.ui.modal else {
        panic!("Pty+ must open the launcher");
    };
    let labels: Vec<&str> = items.iter().map(|i| i.label.as_str()).collect();
    assert!(labels.iter().any(|l| l.contains("NEW box")), "{labels:?}");
    assert!(labels.iter().any(|l| l.contains("image")), "{labels:?}");
    assert!(labels.iter().any(|l| l.contains("Host shell")), "{labels:?}");
    assert!(labels.iter().any(|l| l.contains("Custom")), "{labels:?}");
    let buf = render(&mut app, 100, 30);
    assert!(buf.contains("Host shell"), "menu not rendered:\n{buf}");
    assert!(buf.contains("network: TAP"), "net chip missing:\n{buf}");
    assert!(buf.contains("record env: off"), "env chip missing:\n{buf}");
}

fn pick_entry(app: &mut App, part: &str) {
    let Some(Modal::Launcher { items, sel }) = app.ui.modal.as_mut() else {
        panic!("launcher expected");
    };
    *sel = items.iter().position(|i| i.label.contains(part)).expect("no such entry");
}

#[test]
fn launcher_toggles_cycle_in_place_and_reach_the_argv() {
    let mut app = headless_app();
    open_pty_menu(&mut app);
    handle_modal_key(&mut app, KeyCode::Char('n'), NO_MODS);
    handle_modal_key(&mut app, KeyCode::Char('e'), NO_MODS);
    assert!(matches!(app.ui.modal, Some(Modal::Launcher { .. })));
    assert_eq!(app.jobs.launch.net.name(), "host");
    assert!(app.jobs.launch.env);
    let buf = render(&mut app, 100, 30);
    assert!(buf.contains("network: HOST"), "chip must show new mode:\n{buf}");
    assert!(buf.contains("record env: ON"), "chip must show env on:\n{buf}");
    assert_eq!(
        build_launch(&LaunchTarget::Shell, &app.how(Placement::New)),
        vec!["sarun", "run", "-b", "--net", "host", "-e", "--"]
    );
    assert_eq!(
        build_launch(&LaunchTarget::Image("x".into()), &app.how(Placement::New)),
        vec!["sarun", "oci", "run", "--net", "host", "x"]
    );
    pick_entry(&mut app, "Custom");
    handle_modal_key(&mut app, KeyCode::Enter, NO_MODS);
    // the saved command is read first; there is none.
    while !matches!(app.ui.modal, Some(Modal::PtyCmd { .. })) {
        match app.next() {
            Turn::Idle => break,
            Turn::Outside(Step::ReadPtyCommand) => app.pty_command_read(None),
            _ => {}
        }
    }
    let Some(Modal::PtyCmd { buf }) = &app.ui.modal else {
        panic!("Custom must open the command prompt");
    };
    assert!(buf.contains("run -b --net host -e -- "), "prefill: {buf}");
    assert!(buf.starts_with("sarun "), "no opaque full path: {buf}");
    app.jobs.launch.net = app.jobs.launch.net.next();
    app.jobs.launch.net = app.jobs.launch.net.next();
    assert_eq!(app.jobs.launch.net.name(), "tap");
}

#[test]
fn oaita_on_box_flow_builds_a_complete_command() {
    let mut app = headless_app();
    app.boxes.sessions = rows(r#"[{"path": "WORK", "name": "WORK", "session_id": "7"}]"#);
    open_pty_menu(&mut app);
    pick_entry(&mut app, "oaita agent session ON box 'WORK'");
    handle_modal_key(&mut app, KeyCode::Enter, NO_MODS);
    let Some(Modal::OaitaTask { box_name, session, .. }) = &app.ui.modal else {
        panic!("must open the agent-task modal, got {:?}", app.ui.modal.is_some());
    };
    assert_eq!(box_name, "WORK");
    assert_eq!(session, "workagent");
    handle_modal_key(&mut app, KeyCode::Enter, NO_MODS);
    assert!(
        matches!(app.ui.modal, Some(Modal::OaitaTask { .. })),
        "empty task must keep the modal open, not launch"
    );
    assert!(app.ui.status.contains("type a task"));
    for c in "fix the bug".chars() {
        handle_modal_key(&mut app, KeyCode::Char(c), NO_MODS);
    }
    let how = How {
        net: "host".into(),
        env: false,
        placement: Placement::On("WORK".into()),
        webcap: false,
        webfilter: false,
    };
    let argv = build_launch(&LaunchTarget::Ai { task: "fix the bug".into() }, &how);
    assert_eq!(
        &argv[1..],
        &["oaita", "run", "--on", "WORK", "--net", "host", "--task", "fix the bug", "workagent"]
    );
    assert_eq!(argv.iter().filter(|a| a.contains(' ')).count(), 1);
    app.jobs.launch.net = NetMode::Host;
    handle_modal_key(&mut app, KeyCode::Enter, NO_MODS);
    let opened = outside(&mut app);
    assert!(
        opened.iter().any(|s| matches!(s, Step::OpenPty { argv: a } if a[1..] == argv[1..])),
        "the task starts the session: {opened:?}"
    );
    app.ui.focus = Pane::Sessions;
    let (_, items) = pane_action_menu(&app).unwrap();
    assert!(items.iter().any(|i| matches!(i.action, Action::OaitaOnSelectedBox)));
}

/// The steps of the plan that are done outside.
fn outside(app: &mut App) -> Vec<Step> {
    let mut steps: Vec<Step> = Vec::new();
    for _ in 0..1000 {
        match app.next() {
            Turn::Idle => return steps,
            Turn::Done => {}
            Turn::Outside(s) => steps.push(s),
        }
    }
    panic!("the plan does not end");
}

#[test]
fn ptycmd_help_is_honest_about_sarun_commands() {
    let mut app = headless_app();
    app.ui.modal = Some(Modal::PtyCmd { buf: "sarun run -b -- ".into() });
    let buf = render(&mut app, 100, 30);
    assert!(buf.contains("sandboxed"), "sarun prefill help:\n{buf}");
    assert!(!buf.contains("no box, no capture"), "must not claim no-capture for a sarun command:\n{buf}");
    app.ui.modal = Some(Modal::PtyCmd { buf: "bash".into() });
    let buf = render(&mut app, 100, 30);
    assert!(buf.contains("runs on the HOST"), "host caveat:\n{buf}");
}

#[test]
fn launcher_marks_tap_unavailable_and_preselects_host() {
    let mut app = headless_app();
    app.jobs.launch.tap_ok = false;
    open_pty_menu(&mut app);
    assert_eq!(app.jobs.launch.net.name(), "host", "host must be pre-selected when tap can't work");
    assert!(
        app.ui.status.contains("tap networking unavailable"),
        "why must be stated: {}",
        app.ui.status
    );
    let buf = render(&mut app, 100, 30);
    assert!(buf.contains("network: HOST"), "{buf}");
    assert!(buf.contains("tap ✗"), "cycle hint must mark tap:\n{buf}");
    handle_modal_key(&mut app, KeyCode::Char('n'), NO_MODS);
    handle_modal_key(&mut app, KeyCode::Char('n'), NO_MODS);
    assert_eq!(app.jobs.launch.net.name(), "tap");
    let buf = render(&mut app, 100, 30);
    assert!(buf.contains("TAP ✗ unavailable here"), "tap chip must carry the marker:\n{buf}");
    app.ui.modal = None;
    open_pty_menu(&mut app);
    assert_eq!(app.jobs.launch.net.name(), "tap", "auto-bump is one-shot");
}

/// What a host with a mirror of docker.io and one short name says of references.
fn mirrored(refs: &[String]) -> ContainersConf {
    ContainersConf {
        sources: vec!["/etc/containers/registries.conf".into()],
        aliases: vec![("corp/tool".into(), "registry.corp.example/tool".into())],
        resolved: refs
            .iter()
            .map(|r| {
                let reference = format!("mirror.corp.example/hub/library/{r}");
                let via = "mirror".to_string();
                (r.clone(), Resolved { blocked: None, candidates: vec![Candidate { reference, via }] })
            })
            .collect(),
    }
}

fn plain_conf() -> ContainersConf {
    ContainersConf { sources: vec![], aliases: vec![], resolved: vec![] }
}

#[test]
fn image_picker_tree_respects_registries_conf() {
    let catalog = image_catalog(None);
    let aliases = vec![("corp/tool".to_string(), "registry.corp.example/tool".to_string())];
    let conf = mirrored(&sarun_ui::images::wanted_refs(&catalog, &aliases));
    let local = vec![("ubuntu-24.04".to_string(), "docker.io/library/ubuntu:24.04".to_string())];
    let top = build_image_picker(&conf, &catalog, &local);
    let label = |it: &PickItem| it.label.clone();
    assert!(top.iter().any(|i| i.label.starts_with("Loaded images")));
    for g in &catalog {
        assert!(top.iter().any(|i| i.label == g.name), "missing {}", g.name);
    }
    assert!(top.iter().any(|i| i.label.contains("Short names")));
    assert!(top.iter().any(|i| i.label == "Enter reference…"));
    let ubuntu = top.iter().find(|i| i.label == "Ubuntu").unwrap();
    let PickNext::Menu(tags) = &ubuntu.next else { panic!("group must nest") };
    let first = tags.first().unwrap();
    assert!(matches!(first.next, PickNext::Pull(_)), "{}", label(first));
    assert!(
        first.detail.contains("mirror.corp.example/hub"),
        "leaf must surface the mirror: {}",
        first.detail
    );
    assert!(matches!(tags.last().unwrap().next, PickNext::EnterRef(_)));
    let al = top.iter().find(|i| i.label.contains("Short names")).unwrap();
    let PickNext::Menu(als) = &al.next else { panic!("short names must nest") };
    assert!(
        als.iter().any(|a| a.label == "corp/tool"),
        "{:?}",
        als.iter().map(|a| &a.label).collect::<Vec<_>>()
    );
    let loaded = top.iter().find(|i| i.label.starts_with("Loaded")).unwrap();
    let PickNext::Menu(ls) = &loaded.next else { panic!("loaded images must nest") };
    assert!(matches!(&ls[0].next, PickNext::RunLocal(n) if n == "ubuntu-24.04"));

    let mut app = headless_app();
    app.ui.modal =
        Some(Modal::ImagePicker { crumbs: vec![], stack: vec![PickLevel { items: top, sel: 0 }] });
    let buf = render(&mut app, 110, 35);
    assert!(buf.contains("Ubuntu"), "picker not rendered:\n{buf}");
    assert!(buf.contains("Enter reference"), "escape hatch missing:\n{buf}");
}

#[test]
fn image_picker_descend_and_pull() {
    let top = build_image_picker(&plain_conf(), &image_catalog(None), &vec![]);
    let mut app = headless_app();
    app.ui.modal =
        Some(Modal::ImagePicker { crumbs: vec![], stack: vec![PickLevel { items: top, sel: 0 }] });
    handle_modal_key(&mut app, KeyCode::Enter, NO_MODS);
    let Some(Modal::ImagePicker { crumbs, stack }) = &app.ui.modal else {
        panic!("Enter on a group must descend");
    };
    assert_eq!(crumbs.len(), 1);
    assert_eq!(stack.len(), 2);
    handle_modal_key(&mut app, KeyCode::Enter, NO_MODS);
    assert!(app.ui.modal.is_none(), "leaf pick must close the picker");
    assert!(app.jobs.load.is_some(), "leaf pick must start a load job");
    let steps = outside(&mut app);
    assert!(steps.iter().any(|s| matches!(s, Step::LoadImage(_))), "{steps:?}");
    app.image_loaded(Err("connect: no such file".into()));
    assert!(app.jobs.load.is_none(), "job must complete");
    assert!(app.ui.status.contains("oci load"), "failure surfaced: {}", app.ui.status);
}

#[test]
fn network_pane_renders_captures() {
    let mut app = headless_app();
    app.ui.focus = Pane::Network;
    let buf = render(&mut app, 110, 30);
    assert!(
        buf.contains("WEB") && buf.contains("no web captures"),
        "empty Network pane must show the --webcap on-ramp:\n{buf}"
    );
    app.side.web.rows = rows(
        r#"[
        {"id": 2, "ts": 0.0, "method": "GET", "url": "https://example.com/app.js",
         "host": "example.com", "status": 200, "mime": "application/javascript",
         "truncated": 0, "req_len": 0, "resp_len": 4096},
        {"id": 1, "ts": 0.0, "method": "GET", "url": "https://ad.doubleclick.net/x",
         "host": "ad.doubleclick.net", "status": 204, "mime": "",
         "truncated": 0, "req_len": 0, "resp_len": 0}]"#,
    );
    let buf = render(&mut app, 110, 30);
    assert!(
        buf.contains("Method") && buf.contains("Type") && buf.contains("Bytes"),
        "header row rendered:\n{buf}"
    );
    assert!(
        buf.contains("GET") && buf.contains("200") && buf.contains("application/java"),
        "the 200 capture row rendered (method/status/type):\n{buf}"
    );
    assert!(buf.contains("204"), "the blocked (204) capture is shown too:\n{buf}");
}

#[test]
fn api_pane_surfaces_oaita_local() {
    let mut app = headless_app();
    app.ui.focus = Pane::ApiLogs;
    app.side.api_note = endpoint_note_lines(None);
    let buf = render(&mut app, 110, 30);
    assert!(buf.contains("no endpoint configured"), "{buf}");
    assert!(
        buf.contains("local model") || buf.contains("Pick a local"),
        "empty state must name the zero-endpoint on-ramp:\n{buf}"
    );
    app.side.api_note = endpoint_note_lines(Some(("qwen3".into(), "http://127.0.0.1:18181/v1".into())));
    let buf = render(&mut app, 110, 30);
    assert!(buf.contains("http://127.0.0.1:18181/v1"), "{buf}");
    assert!(buf.contains("--api"), "{buf}");
    let (title, items) = pane_action_menu(&app).expect("Api pane menu");
    assert!(title.contains("API"), "{title}");
    assert!(
        items.iter().any(|i| matches!(i.action, Action::OpenModelPicker)),
        "menu must offer the model picker"
    );
    assert!(
        items.iter().any(|i| matches!(i.action, Action::OaitaLocalPty)),
        "menu must offer plain oaita local"
    );
}

#[test]
fn model_picker_lists_and_offers_custom_url() {
    let mut app = headless_app();
    app.ui.modal = Some(Modal::ModelPicker {
        models: vec![ModelRow {
            name: "Qwen3-4B".into(),
            url: "https://hf/x-Q4_K_M.gguf".into(),
            note: "Q4 · 2 GiB".into(),
        }],
        source: "HuggingFace (1 live)".into(),
        sel: 0,
        loading: false,
    });
    let buf = render(&mut app, 110, 30);
    assert!(buf.contains("Qwen3-4B"), "row must show:\n{buf}");
    assert!(buf.contains("custom GGUF URL"), "escape hatch:\n{buf}");
    handle_modal_key(&mut app, KeyCode::Down, NO_MODS);
    handle_modal_key(&mut app, KeyCode::Enter, NO_MODS);
    assert!(
        matches!(app.ui.modal, Some(Modal::ModelUrl { .. })),
        "custom-URL row must open the URL entry, not launch a download"
    );
}

#[test]
fn api_config_editor_edits_and_masks_key() {
    let mut app = headless_app();
    app.ui.focus = Pane::ApiLogs;
    let (_, items) = pane_action_menu(&app).expect("Api pane menu");
    assert!(
        items.iter().any(|i| matches!(i.action, Action::OpenApiConfig)),
        "menu must offer the external-API editor"
    );
    app.ui.modal = Some(Modal::ApiConfig {
        base_url: String::new(),
        model: String::new(),
        api_key: String::new(),
        slot: ApiField::Model,
        result: String::new(),
        testing: false,
    });
    for c in "gpt-4o".chars() {
        handle_modal_key(&mut app, KeyCode::Char(c), NO_MODS);
    }
    handle_modal_key(&mut app, KeyCode::Tab, NO_MODS);
    for c in "http://h:1/v1".chars() {
        handle_modal_key(&mut app, KeyCode::Char(c), NO_MODS);
    }
    handle_modal_key(&mut app, KeyCode::Tab, NO_MODS);
    for c in "sk-secret".chars() {
        handle_modal_key(&mut app, KeyCode::Char(c), NO_MODS);
    }
    match &app.ui.modal {
        Some(Modal::ApiConfig { model, base_url, api_key, .. }) => {
            assert_eq!(model, "gpt-4o");
            assert_eq!(base_url, "http://h:1/v1");
            assert_eq!(api_key, "sk-secret");
        }
        _ => panic!("editor must stay open across edits"),
    }
    let buf = render(&mut app, 100, 30);
    assert!(buf.contains("gpt-4o") && buf.contains("http://h:1/v1"), "{buf}");
    assert!(!buf.contains("sk-secret"), "api_key must be masked:\n{buf}");
    assert!(buf.contains("•"), "masked key must render dots:\n{buf}");
}

#[test]
fn multiselect_toggle_range_clear_and_scope() {
    let mut app = headless_app();
    app.ui.focus = Pane::Sessions;
    app.boxes.sessions = (0..5)
        .map(|i| j(&format!(r#"{{"session_id": "{i}", "name": "b{i}", "path": "b{i}", "status": "done"}}"#)))
        .collect();
    let keys = |v: &[&str]| v.iter().map(|s| s.to_string()).collect::<Vec<_>>();

    app.boxes.sel = 0;
    app.toggle_mark();
    assert_eq!(app.marked_here(), keys(&["0"]));

    app.boxes.sel = 3;
    app.range_mark();
    assert_eq!(app.marked_here(), keys(&["0", "1", "2", "3"]));

    app.boxes.sel = 2;
    app.toggle_mark();
    assert_eq!(app.marked_here(), keys(&["0", "1", "3"]));

    let buf = render(&mut app, 100, 20);
    assert!(buf.contains('◆'), "marked rows show the glyph:\n{buf}");

    assert!(app.clear_marks());
    assert!(app.marked_here().is_empty());
    assert!(!app.clear_marks(), "nothing to clear the second time");

    app.boxes.sel = 0;
    app.toggle_mark();
    assert_eq!(app.marked_here().len(), 1);
    app.ui.focus = Pane::Changes;
    assert!(app.marked_here().is_empty(), "marks are per-list");

    app.ui.focus = Pane::Help;
    app.toggle_mark();
    assert!(app.ui.status.contains("Boxes and Changes"));
}

#[test]
fn help_pane_lists_keybindings() {
    let mut app = headless_app();
    app.ui.focus = Pane::Help;
    let buf = render(&mut app, 120, 120);
    assert!(buf.contains("help"), "help pane title missing:\n{buf}");
    assert!(buf.contains("apply") && buf.contains("discard"), "help should mention apply/discard:\n{buf}");
    assert!(buf.contains("processes"), "help should mention the processes pane:\n{buf}");
    assert!(
        buf.contains("copy-on-write") || buf.contains("overlay"),
        "manual should explain the overlay loop:\n{buf}"
    );
    assert!(buf.contains("hunk"), "manual should mention per-hunk apply:\n{buf}");
    assert!(buf.contains("passthrough"), "manual should document rule actions:\n{buf}");
    assert!(buf.contains("ctrl+"), "manual should mention rule reorder:\n{buf}");
    for k in pane_keys() {
        assert!(
            buf.contains(&format!("{}  {}", k.key, k.help)),
            "help pane index missing generated line for {:?}:\n{buf}",
            k.key
        );
    }
    for k in pane_action_keys() {
        if let Some(desc) = k.help {
            let want = format!("{}  {desc}", k.key.label());
            assert!(buf.contains(&want), "help missing generated pane-action line {want:?}:\n{buf}");
        }
    }
    let joined = |which: ConfirmKey| {
        confirm_keys()
            .iter()
            .filter(|(_, a, _)| *a == which)
            .map(|(k, _, _)| k.label())
            .collect::<Vec<_>>()
            .join("/")
    };
    let yes = joined(ConfirmKey::Yes);
    let no = joined(ConfirmKey::No);
    assert!(
        buf.contains(&format!("{yes}  confirm the action")),
        "help missing generated confirm-keys (yes={yes:?}):\n{buf}"
    );
    assert!(
        buf.contains(&format!("{no}  cancel")),
        "help missing generated confirm-keys (no={no:?}):\n{buf}"
    );
}

fn confirm() -> Option<Modal> {
    Some(Modal::Confirm { prompt: "Delete?".into(), action: ConfirmAction::Dissolve })
}

#[test]
fn keymap_tables_dispatch_modal_and_pane_keys() {
    let mut app = headless_app();
    app.ui.modal = confirm();
    handle_modal_key(&mut app, KeyCode::Char('n'), NO_MODS);
    assert!(app.ui.modal.is_none(), "'n' should dismiss the Confirm modal");
    assert_eq!(app.ui.status, "cancelled");
    app.ui.modal = confirm();
    handle_modal_key(&mut app, KeyCode::Esc, NO_MODS);
    assert!(app.ui.modal.is_none(), "Esc should dismiss the Confirm modal");
    app.ui.modal = confirm();
    handle_modal_key(&mut app, KeyCode::Char('z'), NO_MODS);
    assert!(
        matches!(app.ui.modal, Some(Modal::Confirm { .. })),
        "an unbound key must leave the Confirm modal up"
    );

    for (key, want) in [('K', ConfirmAction::Kill), ('D', ConfirmAction::Dissolve)] {
        let mut app = headless_app();
        app.ui.focus = Pane::Sessions;
        assert!(
            dispatch_pane_key(&mut app, KeyCode::Char(key)),
            "'{key}' must be handled by the pane-key table"
        );
        match app.ui.modal {
            Some(Modal::Confirm { action, .. }) => {
                assert!(action == want, "'{key}' opened the wrong Confirm action")
            }
            _ => panic!("'{key}' should open a Confirm modal"),
        }
    }

    let mut app = headless_app();
    app.ui.focus = Pane::Changes;
    assert!(dispatch_pane_key(&mut app, KeyCode::Char('d')));
    assert!(app.ui.should_quit, "'d' off Hunks/Rules must detach (set should_quit)");
    let mut app = headless_app();
    app.ui.focus = Pane::Rules;
    assert!(dispatch_pane_key(&mut app, KeyCode::Char('d')));
    assert!(!app.ui.should_quit, "'d' on Rules must NOT detach");

    let mut app = headless_app();
    app.ui.focus = Pane::Rules;
    assert!(dispatch_pane_key(&mut app, KeyCode::Char('n')));
    assert!(
        matches!(app.ui.modal, Some(Modal::RuleForm { editing: None, .. })),
        "'n' on Rules should open a blank RuleForm"
    );

    let mut app = headless_app();
    app.ui.focus = Pane::Sessions;
    assert!(dispatch_pane_key(&mut app, KeyCode::Char('r')));
    assert!(app.ui.renaming.is_some(), "'r' should enter rename mode");

    let mut app = headless_app();
    assert!(
        !dispatch_pane_key(&mut app, KeyCode::Char('§')),
        "an unbound key must not be claimed by the pane-key table"
    );
}

fn rule_clause(kind: &str, pattern: &str) -> Clause {
    Clause {
        m: Match { kind: kind.into(), pattern: pattern.into() },
        join: Join::And,
        negate: false,
        enabled: true,
    }
}

#[test]
fn rules_pane_parses_rule_and_shows_clauses() {
    let mut app = headless_app();
    app.side.rules = vec!["apply path:src/** and exe:**/gcc".into()];
    app.ui.focus = Pane::Rules;
    let g = Given {
        rule: Some(FileRule {
            action: RuleAction::Apply,
            clauses: vec![rule_clause("path", "src/**"), rule_clause("exe", "**/gcc")],
        }),
        ..given()
    };
    let buf = render_with(&mut app, 160, 30, &g);
    assert!(buf.contains("APPLY"), "ACTION heading missing:\n{buf}");
    assert!(buf.contains("path:src/**"), "first clause missing:\n{buf}");
    assert!(buf.contains("exe:**/gcc"), "second clause missing:\n{buf}");
    assert!(buf.contains("changed path"), "path-kind help line missing:\n{buf}");
}
