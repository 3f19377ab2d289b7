use base64::Engine;
use ratatui::backend::TestBackend;
use ratatui::widgets::{Block, Borders, Clear, Paragraph, Wrap};
use ratatui::Terminal;
use serde_json::Value;

use sarun_ui::app::{App, Env, Step, PAGE_SIZE};
use sarun_ui::canvas::{Canvas, Widget};
use sarun_ui::json::Json;
use sarun_ui::keys::{KeyCode, Mods};
use sarun_ui::lists::read_reply;
use sarun_ui::outside::Rect;
use sarun_ui::plan::Turn;
use sarun_ui::rules::{eval_clauses, path_match, Clause, Join, Match, ProcFilterTarget, Subject};
use sarun_ui::num::Real;
use sarun_ui::screen::{draw, Given};
use sarun_ui::types::{ClauseRow, ConfirmAction, FilterView, Modal, Pane};

/// A JSON value from its text.
fn j(text: &str) -> Json {
    json_of(&serde_json::from_str::<Value>(text).unwrap())
}

fn json_of(v: &Value) -> Json {
    match v {
        Value::Null => Json::Null,
        Value::Bool(b) => Json::Bool(*b),
        Value::Number(n) => match (n.as_i64(), n.as_u64()) {
            (Some(i), _) => Json::Int(i),
            (None, Some(u)) => Json::Big(u),
            _ => Json::Real(Real::of_float(n.as_f64().unwrap().to_bits()), n.to_string()),
        },
        Value::String(s) => Json::Str(s.clone()),
        Value::Array(a) => Json::Arr(a.iter().map(json_of).collect()),
        Value::Object(m) => Json::Obj(m.iter().map(|(k, v)| (k.clone(), json_of(v))).collect()),
    }
}

fn given() -> Given {
    Given {
        detail: None,
        rule: None,
        rules_path: "/home/u/.config/slopbox/filerules".into(),
        conf: "/home/u/.config/slopbox".into(),
        now: Real::of_float(1_700_000_000.0f64.to_bits()),
    }
}

fn area(r: Rect) -> ratatui::layout::Rect {
    ratatui::layout::Rect { x: r.x, y: r.y, width: r.width, height: r.height }
}

/// The characters that a picture puts on a screen of that size.
fn paint(canvas: &Canvas, w: u16, h: u16) -> String {
    let mut term = Terminal::new(TestBackend::new(w, h)).unwrap();
    term.draw(|f| {
        for widget in &canvas.widgets {
            match widget {
                Widget::Para { area: a, frame, text, scroll, wrap } => {
                    let lines: Vec<ratatui::text::Line> = text
                        .lines
                        .iter()
                        .map(|l| l.spans.iter().map(|s| s.text.clone()).collect::<Vec<String>>().concat().into())
                        .collect();
                    let mut p = Paragraph::new(lines).scroll((*scroll, 0));
                    if *wrap {
                        p = p.wrap(Wrap { trim: false });
                    }
                    if let Some(fr) = frame {
                        p = p.block(Block::default().borders(Borders::ALL).title(fr.title.clone()));
                    }
                    f.render_widget(p, area(*a));
                }
                Widget::Clear(a) => f.render_widget(Clear, area(*a)),
                Widget::Screen(_) => {}
            }
        }
    })
    .unwrap();
    format!("{}", term.backend())
}

fn render_with(app: &mut App, w: u16, h: u16, g: &Given) -> String {
    let canvas = draw(app, Rect { x: 0, y: 0, width: w, height: h }, g);
    paint(&canvas, w, h)
}

fn render(app: &mut App, w: u16, h: u16) -> String {
    render_with(app, w, h, &given())
}

const NO_MODS: Mods = Mods { ctrl: false, alt: false, shift: false };

/// An engine that holds one box and answers from memory.
struct Fake {
    sessions: Vec<Value>,
    changes: Vec<Value>,
    procs: Vec<Value>,
    outputs: Vec<(i64, i64, Vec<u8>)>,
    pipelines: Vec<Value>,
    edges: Vec<Value>,
    /// The diff of each change, by path.
    diffs: Vec<(String, Value)>,
    /// What the beginning of a structural diff is answered with.
    quick: Value,
    writer: i64,
    /// The paths that were applied, and the hunks.
    host: Vec<String>,
    host_hunks: Vec<i64>,
    rules_file: String,
    views: Vec<(String, Vec<Clause>)>,
    finishing: Vec<(i64, u64)>,
}

fn v(text: &str) -> Value {
    serde_json::from_str(text).unwrap()
}

fn b64(bytes: &[u8]) -> String {
    base64::engine::general_purpose::STANDARD.encode(bytes)
}

fn clauses_of(filter: &Json) -> Vec<Clause> {
    let Some(cs) = filter.as_arr() else { return vec![] };
    cs.iter()
        .map(|c| Clause {
            m: Match { kind: c.str_or("kind", "").into(), pattern: c.str_or("pattern", "").into() },
            join: if c.str_or("join", "and") == "or" { Join::Or } else { Join::And },
            negate: c.flag("negate"),
            enabled: c.flag("enabled"),
        })
        .collect()
}

impl Fake {
    /// An engine with one finished box that has a path of its own.
    fn boot() -> Fake {
        Fake {
            sessions: vec![v(
                r#"{"session_id": "1", "name": "BOX1", "path": "BOX1", "status": "finished", "pid": 4321,
                 "cmd": ["/bin/echo", "hi"], "live": false, "started": 1699999990.0, "created": 1699999990.0}"#,
            )],
            changes: vec![],
            procs: vec![],
            outputs: vec![],
            pipelines: vec![],
            edges: vec![],
            diffs: vec![],
            quick: v(r#"{"lines": [], "job": null}"#),
            writer: -1,
            host: vec![],
            host_hunks: vec![],
            rules_file: String::new(),
            views: vec![],
            finishing: vec![],
        }
    }

    fn write_file(&mut self, path: &str, size: usize) {
        let name = path.rsplit('/').next().unwrap().to_string();
        let mut row = v(r#"{"kind": "changed", "depth": 0, "connector": false}"#);
        row["path"] = path.into();
        row["name"] = name.into();
        row["size"] = size.into();
        self.changes.push(row);
    }

    fn list(&self, name: &str) -> Vec<Value> {
        match name {
            "changes" => self.changes.clone(),
            "procs" => self.procs.clone(),
            "outputs" => self
                .outputs
                .iter()
                .map(|(id, stream, b)| {
                    let mut row = v("{}");
                    row["id"] = (*id).into();
                    row["stream"] = (*stream).into();
                    row["len"] = b.len().into();
                    row
                })
                .collect(),
            "pipelines" => self.pipelines.clone(),
            _ => self.edges.clone(),
        }
    }

    fn rows_of_view(&self, id: usize) -> Vec<Value> {
        let (name, cs) = &self.views[id];
        self.list(name)
            .into_iter()
            .filter(|r| {
                if name == "changes" {
                    return cs.iter().all(|c| path_match(&c.m.pattern, r["path"].as_str().unwrap_or("")));
                }
                let t = ProcFilterTarget {
                    row_id: r["rid"].as_i64().unwrap_or(-1),
                    err: false,
                    subject: Subject {
                        box_name: "BOX1".into(),
                        exe: r["exe"].as_str().unwrap_or("").into(),
                        cwd: String::new(),
                        argv: vec![],
                    },
                };
                eval_clauses(&t, cs)
            })
            .collect()
    }

    fn call(&mut self, verb: &str, args: &[Json]) -> Result<Json, String> {
        let text = |i: usize| args[i].as_str().unwrap_or("").to_string();
        let num = |i: usize| args[i].as_u64().unwrap_or(0) as usize;
        let r: Value = match verb {
            "session_dicts" => Value::Array(self.sessions.clone()),
            "oci.images" => v("[]"),
            "view.open" => {
                self.views.push((text(0), clauses_of(&args[2])));
                let id = self.views.len() - 1;
                let mut r = v("{}");
                r["view_id"] = id.into();
                r["total"] = self.rows_of_view(id).len().into();
                r
            }
            "view.window" => {
                let all = self.rows_of_view(num(0));
                let mut r = v("{}");
                r["start"] = num(1).into();
                r["total"] = all.len().into();
                r["rows"] = all.into_iter().skip(num(1)).take(num(2)).collect::<Vec<Value>>().into();
                r
            }
            "view.filter" => {
                let id = num(0);
                self.views[id].1 = clauses_of(&args[1]);
                let mut r = v("{}");
                r["total"] = self.rows_of_view(id).len().into();
                r
            }
            "view.close" => Value::Null,
            "review.box_summary" => {
                let mut r = v(r#"{"outputs": [], "processes": [], "pipelines": [], "edges": []}"#);
                r["changes"] = self.changes.clone().into();
                r
            }
            "review.decorate_many" => args[1]
                .as_arr()
                .unwrap()
                .iter()
                .map(|_| v(r#"{"kind": "created", "stale": false}"#))
                .collect::<Vec<Value>>()
                .into(),
            "review.decorate" => v(r#"{"kind": "created", "stale": false}"#),
            "review.change_mode" => v("33188"),
            "review.hunks" => match self.diffs.iter().find(|(p, _)| *p == text(1)) {
                Some((_, d)) => d.clone(),
                None => v(r#"{"is_text": true, "hunks": []}"#),
            },
            "struct_quick" => self.quick.clone(),
            "review.apply" | "review.discard" => {
                let picked: Vec<String> = match args[1].as_arr() {
                    Some(a) => a.iter().map(|p| p.as_str().unwrap().to_string()).collect(),
                    None => self.changes.iter().map(|c| c["path"].as_str().unwrap().to_string()).collect(),
                };
                self.changes.retain(|c| !picked.iter().any(|p| c["path"] == p.as_str()));
                let mut r = v("{}");
                if verb == "review.apply" {
                    self.host.extend(picked.clone());
                    r["applied"] = picked.into();
                } else {
                    r["discarded"] = picked.into();
                }
                r
            }
            "review.apply_hunk" => {
                self.host_hunks.push(args[2].as_i64().unwrap());
                for (_, d) in self.diffs.iter_mut() {
                    if let Some(hs) = d["hunks"].as_array_mut() {
                        hs.retain(|h| h["index"].as_i64() != args[2].as_i64());
                    }
                }
                v(r#"{"ok": true}"#)
            }
            "dissolve" => {
                let sid = text(0);
                self.sessions.retain(|s| s["session_id"] != sid.as_str());
                Value::Null
            }
            "reload_rules" => Value::Null,
            "output_detail" => {
                let (_, _, bytes) = self.outputs.iter().find(|o| Some(o.0) == args[1].as_i64()).unwrap();
                let mut r = v(r#"{"content": {}}"#);
                r["content"]["__b"] = b64(bytes).into();
                r
            }
            "first_writer_id" | "writer_id" => self.writer.into(),
            other => return Err(format!("unknown verb {other}")),
        };
        Ok(json_of(&r))
    }
}

/// Works off the plan of the client.
fn settle(app: &mut App, eng: &mut Fake) {
    for _ in 0..10000 {
        match app.next() {
            Turn::Idle => return,
            Turn::Done => {}
            Turn::Outside(Step::Call { verb, args, then }) => {
                let r = eng.call(verb, &args);
                app.answer(then, r);
            }
            Turn::Outside(Step::ReadRules) => app.rules_read(&eng.rules_file.clone()),
            Turn::Outside(Step::WriteRules(text)) => {
                eng.rules_file = text;
                app.rules_written(Ok(()));
            }
            Turn::Outside(Step::FinishStruct(job, generation)) => eng.finishing.push((job, generation)),
            Turn::Outside(_) => {}
        }
    }
    panic!("the plan does not end");
}

fn start(eng: &mut Fake) -> App {
    let env = Env { sock: "/run/ui.sock".into(), exe: "sarun".into(), shell: "/bin/sh".into() };
    let mut app = App::new(env, true);
    settle(&mut app, eng);
    app
}

fn load(app: &mut App, eng: &mut Fake, view: FilterView) {
    app.load_list(view);
    settle(app, eng);
}

fn open(app: &mut App, eng: &mut Fake) {
    app.open();
    settle(app, eng);
}

#[test]
fn sessions_pane_shows_real_box() {
    let mut eng = Fake::boot();
    let mut app = start(&mut eng);
    let buf = render(&mut app, 100, 30);
    assert!(buf.contains("BOX1"), "frame should contain the box; got:\n{buf}");
    assert!(buf.contains("boxes"), "sessions pane title missing");
    assert!(buf.contains("BOX · DETAIL"), "box-detail pane title missing");
}

#[test]
fn changes_pane_shows_written_file() {
    let mut eng = Fake::boot();
    eng.write_file("tmp/hello_ui_marker.txt", 19);
    let mut app = start(&mut eng);
    app.refresh_sessions();
    settle(&mut app, &mut eng);
    load(&mut app, &mut eng, FilterView::Changes);
    open(&mut app, &mut eng);
    let buf = render(&mut app, 160, 30);
    assert!(
        buf.contains("hello_ui_marker.txt"),
        "changes pane should list the written file; got:\n{buf}"
    );
    assert!(buf.contains('+') || buf.contains('~'), "kind glyph (+ / ~) missing:\n{buf}");
    assert!(buf.contains("19"), "size column missing:\n{buf}");
}

fn two_hunks() -> Value {
    v(r#"{"is_text": true, "hunks": [
        {"index": 0, "lines": [["hdr", "@@ -1,3 +1,3 @@"], ["-", "line 2"], ["+", "line 2 CHANGED_TOP"]]},
        {"index": 1, "lines": [["hdr", "@@ -37,3 +37,3 @@"], ["-", "line 38"], ["+", "line 38 CHANGED_BOTTOM"]]}]}"#)
}

#[test]
fn hunks_pane_shows_diff_content() {
    let mut eng = Fake::boot();
    eng.write_file("tmp/diffme.txt", 23);
    eng.diffs.push((
        "tmp/diffme.txt".into(),
        v(r#"{"is_text": true, "hunks": [{"index": 0, "lines": [["+", "UNIQUE_DIFF_LINE_xyzzy"]]}]}"#),
    ));
    let mut app = start(&mut eng);
    open(&mut app, &mut eng);
    assert!(!app.lists.changes.rows.is_empty(), "expected at least one change");
    open(&mut app, &mut eng);
    let buf = render(&mut app, 120, 40);
    assert!(
        buf.contains("xyzzy") || buf.contains("UNIQUE_DIFF"),
        "diff pane should contain the new file's unique line; got:\n{buf}"
    );
}

fn has_change(app: &App, part: &str) -> bool {
    app.lists.changes.rows.iter().any(|c| c.str_or("path", "").contains(part))
}

#[test]
fn discard_removes_the_change() {
    let mut eng = Fake::boot();
    eng.write_file("tmp/to_discard.txt", 5);
    let mut app = start(&mut eng);
    open(&mut app, &mut eng);
    assert!(has_change(&app, "to_discard.txt"), "change should be present before discard");
    app.discard();
    settle(&mut app, &mut eng);
    assert!(
        !has_change(&app, "to_discard.txt"),
        "change should be gone after discard; status={}",
        app.ui.status
    );
}

#[test]
fn unknown_verb_is_graceful() {
    let mut eng = Fake::boot();
    let r = eng.call("apply_hunk", &[Json::text("1"), Json::text("x"), Json::Int(0)]);
    assert!(r.is_err(), "unknown verb should be an Err, not a crash");
    let rep = j(r#"{"ok": false, "error": "unknown verb apply_hunk"}"#);
    let r = read_reply(&rep, "error");
    assert!(r.is_err(), "unknown verb should be an Err, not a crash");
    assert!(r.unwrap_err().contains("unknown verb"), "error should name the unknown verb");
}

#[test]
fn apply_then_materializes_on_host() {
    let mut eng = Fake::boot();
    eng.write_file("tmp/applied_marker_1.txt", 16);
    let mut app = start(&mut eng);
    open(&mut app, &mut eng);
    assert!(!app.lists.changes.rows.is_empty(), "expected a change before apply");
    app.apply();
    settle(&mut app, &mut eng);
    assert!(
        app.ui.status.starts_with("applied"),
        "apply status should report success; got {}",
        app.ui.status
    );
    assert_eq!(eng.host, vec!["tmp/applied_marker_1.txt"], "applied file should materialize on host");
}

fn proc(rid: i64, ppid: i64, depth: i64, exe: &str, argv: &[&str]) -> Value {
    let mut row = v(r#"{"connector": false}"#);
    row["rid"] = rid.into();
    row["tgid"] = (100 + rid).into();
    row["ppid"] = ppid.into();
    row["exe"] = exe.into();
    row["argv"] = argv.iter().map(|a| Value::from(*a)).collect::<Vec<Value>>().into();
    row["depth"] = depth.into();
    row
}

#[test]
fn processes_pane_shows_real_exe_and_argv() {
    let mut eng = Fake::boot();
    eng.procs = vec![proc(1, 1, 0, "/bin/echo", &["/bin/echo", "PROC_MARKER_zzz"])];
    let mut app = start(&mut eng);
    load(&mut app, &mut eng, FilterView::Procs);
    assert!(!app.lists.processes.rows.is_empty(), "expected captured processes");
    app.ui.focus = Pane::Processes;
    let buf = render(&mut app, 160, 40);
    assert!(buf.contains("PROCESSES"), "processes pane title missing:\n{buf}");
    assert!(buf.contains("echo"), "processes pane should show the real exe 'echo'; got:\n{buf}");
    assert!(
        buf.contains("PROC_MARKER_zzz"),
        "processes pane should show the real argv; got:\n{buf}"
    );
}

#[test]
fn outputs_pane_shows_real_captured_bytes() {
    let mut eng = Fake::boot();
    eng.outputs = vec![(1, 0, b"OUTPUT_MARKER_qqq\n".to_vec())];
    let mut app = start(&mut eng);
    load(&mut app, &mut eng, FilterView::Outputs);
    assert!(
        app.shown.output_segs.iter().any(|(_, _, t)| t.contains("OUTPUT_MARKER_qqq")),
        "expected the echoed bytes in some box's outputs; status={}",
        app.ui.status
    );
    app.ui.focus = Pane::Outputs;
    let buf = render(&mut app, 160, 40);
    assert!(buf.contains("OUTPUT"), "outputs pane title missing:\n{buf}");
    assert!(
        buf.contains("OUTPUT_MARKER_qqq"),
        "outputs pane should show the captured stdout bytes; got:\n{buf}"
    );
}

#[test]
fn output_bytes_that_are_no_text_are_replaced() {
    let mut eng = Fake::boot();
    eng.outputs = vec![(7, 1, vec![b'a', 0xff, b'b'])];
    let mut app = start(&mut eng);
    load(&mut app, &mut eng, FilterView::Outputs);
    assert_eq!(app.shown.output_segs, vec![(7, 1, "a\u{fffd}b".to_string())]);
    app.output_detail(8, 0, Ok(j(r#"{"content": {"__b": "not base64!"}}"#)));
    assert_eq!(app.shown.output_segs[1], (8, 0, String::new()));
}

fn commit_rule(app: &mut App, eng: &mut Fake, rule: &str, editing: Option<usize>) {
    app.commit_rule(rule, editing);
    settle(app, eng);
}

#[test]
fn rules_editor_writes_file_and_reloads() {
    let mut eng = Fake::boot();
    let mut app = start(&mut eng);
    app.ui.focus = Pane::Rules;
    assert!(app.side.rules.is_empty(), "fresh instance should have no rules");
    commit_rule(&mut app, &mut eng, "discard **/*.RULEMARKER_log", None);
    assert!(
        eng.rules_file.contains("discard **/*.RULEMARKER_log"),
        "rule should be persisted; got: {:?}",
        eng.rules_file
    );
    assert!(
        app.ui.status.contains("reloaded"),
        "save should call reload_rules; status={}",
        app.ui.status
    );
    let buf = render(&mut app, 160, 40);
    assert!(buf.contains("FILE RULES"), "rules pane title missing:\n{buf}");
    assert!(buf.contains("RULEMARKER_log"), "rules pane should show the added rule; got:\n{buf}");

    app.side.sel_rule = 0;
    commit_rule(&mut app, &mut eng, "apply src/**", Some(0));
    assert!(eng.rules_file.contains("apply src/**"), "edit should replace the rule: {:?}", eng.rules_file);
    assert!(!eng.rules_file.contains("RULEMARKER_log"), "old rule should be gone: {:?}", eng.rules_file);
    app.side.sel_rule = 0;
    app.delete_rule();
    settle(&mut app, &mut eng);
    assert!(eng.rules_file.trim().is_empty(), "delete should empty the file: {:?}", eng.rules_file);
}

#[test]
fn confirm_modal_guards_destructive_delete() {
    let mut eng = Fake::boot();
    let mut app = start(&mut eng);
    app.ui.modal = Some(Modal::Confirm { prompt: "Delete?".into(), action: ConfirmAction::Dissolve });
    let buf = render(&mut app, 100, 30);
    assert!(buf.contains("confirm"), "confirm modal title missing:\n{buf}");
    assert!(buf.contains("Delete?"), "confirm prompt missing:\n{buf}");
    let present = |a: &App| a.boxes.sessions.iter().any(|s| s.get_str("session_id") == Some("1"));
    assert!(present(&app), "box should still exist while only the modal is open");
    app.run_confirm(ConfirmAction::Dissolve);
    settle(&mut app, &mut eng);
    assert!(
        !present(&app),
        "box should be gone after the confirmed delete; status={}",
        app.ui.status
    );
}

fn row_of(kind: &str, pattern: &str) -> Vec<ClauseRow> {
    vec![ClauseRow {
        enabled: true,
        join: Join::And,
        negate: false,
        kind: kind.into(),
        pattern: pattern.into(),
    }]
}

#[test]
fn search_filter_narrows_processes_pane() {
    let mut eng = Fake::boot();
    eng.procs = vec![
        proc(1, 1, 0, "/bin/sh", &["sh"]),
        proc(2, 101, 1, "/bin/echo", &["echo", "FILTER_KEEP_marker"]),
    ];
    let mut app = start(&mut eng);
    load(&mut app, &mut eng, FilterView::Procs);
    let total = app.lists.processes.rows.len();
    assert_eq!(total, 2, "expected captured processes");
    app.commit_filter(FilterView::Procs, &row_of("exe", "NO_SUCH_PROC_zzzz"));
    settle(&mut app, &mut eng);
    assert!(app.lists.processes.rows.is_empty(), "bogus exe clause should hide all rows");
    app.commit_filter(FilterView::Procs, &row_of("exe", "**/echo"));
    settle(&mut app, &mut eng);
    let vis = app.lists.processes.rows.len();
    assert!(vis >= 1 && vis <= total, "exe clause should keep ≥1, ≤all rows");
    app.ui.focus = Pane::Processes;
    let buf = render(&mut app, 160, 40);
    assert!(buf.contains("echo"), "filtered processes pane should still show echo:\n{buf}");
}

#[test]
fn proc_tree_renders_children_indented() {
    let mut eng = Fake::boot();
    eng.procs = vec![
        proc(1, 1, 0, "/bin/sh", &["/bin/sh", "-c", "x"]),
        proc(2, 101, 1, "/bin/sh", &["/bin/sh", "-c", "/bin/sleep 0.05"]),
        proc(3, 102, 2, "/bin/sleep", &["/bin/sleep", "0.05"]),
        proc(4, 102, 2, "/bin/echo", &["/bin/echo", "TREEKID_marker"]),
    ];
    let mut app = start(&mut eng);
    load(&mut app, &mut eng, FilterView::Procs);
    assert!(app.lists.processes.rows.len() >= 2, "expected a box with a multi-process tree");
    let rows = app.proc_tree_rows();
    assert!(
        rows.iter().any(|r| r.depth > 0),
        "proc tree should have an indented child; rows depths: {:?}",
        rows.iter().map(|r| r.depth).collect::<Vec<_>>()
    );
    let first_deep = rows.iter().position(|r| r.depth > 0).unwrap();
    assert!(
        rows[..first_deep].iter().any(|r| r.depth == 0),
        "a depth-0 ancestor must precede the first deep row"
    );
    app.ui.focus = Pane::Processes;
    let buf = render(&mut app, 160, 40);
    assert!(
        buf.lines().any(|l| {
            let t = l.trim_start_matches(|c: char| c.is_ascii_digit() || c == ' ');
            l.contains("sh") && l.matches("  ").count() >= 2 && !t.is_empty()
        }),
        "rendered tree should show indented rows:\n{buf}"
    );
    assert!(buf.contains("sh"), "tree should show the sh processes:\n{buf}");
}

#[test]
fn nav_ids_filters_procs_to_writer_then_clears() {
    let mut eng = Fake::boot();
    eng.write_file("tmp/navids_marker_file.txt", 9);
    eng.procs = vec![
        proc(1, 1, 0, "/bin/sh", &["sh"]),
        proc(2, 101, 1, "/bin/cp", &["cp", "/bin/echo", "/tmp/navids_marker_file.txt"]),
    ];
    eng.writer = 2;
    let mut app = start(&mut eng);
    load(&mut app, &mut eng, FilterView::Procs);
    app.ui.focus = Pane::Changes;
    app.lists.changes.sel = 0;
    assert_eq!(app.cur_change_path(), Some("tmp/navids_marker_file.txt"));

    app.nav(Pane::Processes);
    settle(&mut app, &mut eng);
    assert!(app.ui.focus == Pane::Processes);
    assert!(
        app.filters.procs.on && app.filters.procs.generated,
        "procs pane should carry a generated filter after nav"
    );
    let vis: Vec<i64> = app.lists.processes.rows.iter().map(|p| p.i64_or("rid", -1)).collect();
    assert_eq!(vis, vec![2], "procs filter must show only the writer ids");

    app.ui.focus = Pane::Processes;
    assert!(app.filters.procs.generated, "filter still generated before esc");
    app.clear_filter(FilterView::Procs);
    settle(&mut app, &mut eng);
    assert!(
        !app.filters.procs.on && !app.filters.procs.generated && app.filters.procs.clauses.is_empty(),
        "esc/clear must drop the generated ids filter entirely"
    );
    assert_eq!(app.lists.processes.rows.len(), 2, "cleared filter shows all processes again");
}

fn select_change(app: &mut App, eng: &mut Fake, path: &str) {
    load(app, eng, FilterView::Changes);
    let pos = app.lists.changes.rows.iter().position(|c| c.get_str("path") == Some(path)).unwrap();
    app.ui.focus = Pane::Changes;
    app.lists.changes.sel = pos;
    app.load_hunks();
    settle(app, eng);
}

fn binary(bytes: &[u8]) -> Value {
    let mut d = v(r#"{"is_text": false, "diff": {}}"#);
    d["diff"]["content"] = b64(bytes).into();
    d
}

#[test]
fn struct_pane_shows_elf_structure() {
    let mut eng = Fake::boot();
    eng.write_file("tmp/struct_elf_marker", 4096);
    eng.diffs.push(("tmp/struct_elf_marker".into(), binary(b"\x7fELF\x02\x01\x01\x00")));
    eng.quick = v(r#"{"lines": [["", "type: ELF 64-bit LSB executable"]], "job": 5}"#);
    let mut app = start(&mut eng);
    select_change(&mut app, &mut eng, "tmp/struct_elf_marker");
    assert!(!app.diff.hunks.flag("is_text"), "ELF change should be binary, not text");
    let quick: Vec<String> = app.diff.structd.quick_lines.iter().map(|(_, t)| t.clone()).collect();
    assert!(
        quick.join("\n").to_lowercase().contains("elf"),
        "struct_quick should report the ELF type; got: {quick:?}"
    );
    let (job, generation) = *eng.finishing.last().expect("a finish job was kicked");
    assert_eq!(job, 5);
    let full = j(r#"{"lines": [["", "ELF Header:"], ["+", "Section Headers: .text"]]}"#);
    assert!(!app.struct_done(generation.wrapping_sub(1), Ok(full.copy())), "a late result is dropped");
    assert!(app.struct_done(generation, Ok(full)));
    let buf = render(&mut app, 160, 60);
    assert!(buf.contains("structural diff"), "pane title should be structural:\n{buf}");
    assert!(buf.contains("ELF Header"), "structural pane should show real ELF structure; got:\n{buf}");
}

#[test]
fn struct_pane_hexdump_fallback_shows_real_bytes() {
    let mut eng = Fake::boot();
    let data: Vec<u8> = vec![
        0xDE, 0xAD, 0xBE, 0xEF, 0x00, 0x11, 0x22, 0x33, 0x44, 0x55, 0x66, 0x77, 0x88, 0x99, 0xAA, 0xBB,
        0x00, 0xCC,
    ];
    eng.write_file("tmp/struct_hex_marker.bin", data.len());
    eng.diffs.push(("tmp/struct_hex_marker.bin".into(), binary(&data)));
    let mut app = start(&mut eng);
    select_change(&mut app, &mut eng, "tmp/struct_hex_marker.bin");
    assert!(!app.diff.hunks.flag("is_text"), "should be a binary change");
    assert!(app.diff.structd.job.is_none(), "unrecognized type must not kick a job");
    assert!(!app.diff.structd.hex_lines.is_empty(), "hexdump fallback must be built");
    let buf = render(&mut app, 160, 40);
    assert!(
        buf.contains("dead beef") || buf.contains("de ad be ef"),
        "hexdump should show the real bytes; got:\n{buf}"
    );
}

#[test]
fn hunk_apply_applies_only_the_selected_hunk() {
    let mut eng = Fake::boot();
    eng.write_file("tmp/hunk2.txt", 320);
    eng.diffs.push(("tmp/hunk2.txt".into(), two_hunks()));
    let mut app = start(&mut eng);
    select_change(&mut app, &mut eng, "tmp/hunk2.txt");
    let idxs = app.hunk_indices();
    assert!(idxs.len() >= 2, "expected ≥2 hunks, got {}", idxs.len());
    app.ui.focus = Pane::Hunks;
    app.diff.sel_hunk = 0;
    let first_ix = app.cur_hunk_index().unwrap();
    app.apply_hunk();
    settle(&mut app, &mut eng);
    assert!(
        app.ui.status.starts_with("applied hunk"),
        "apply_hunk status should report success; got {}",
        app.ui.status
    );
    assert_eq!(eng.host_hunks, vec![first_ix], "host gets exactly the selected hunk");
    assert_eq!(app.hunk_indices(), vec![1], "the other hunk must remain pending");
    let buf = render(&mut app, 120, 40);
    assert!(!buf.contains("CHANGED_TOP") && buf.contains("CHANGED_BOTTOM"), "{buf}");
}

#[test]
fn batch_apply_all_applies_every_change() {
    let mut eng = Fake::boot();
    eng.write_file("tmp/batch_a.txt", 10);
    eng.write_file("tmp/batch_b.txt", 10);
    let mut app = start(&mut eng);
    assert!(app.lists.changes.rows.len() >= 2, "expected ≥2 changes before apply_all");
    app.apply_all();
    settle(&mut app, &mut eng);
    assert!(
        app.ui.status.starts_with("applied all"),
        "apply_all status should report success; got {}",
        app.ui.status
    );
    assert_eq!(eng.host, vec!["tmp/batch_a.txt", "tmp/batch_b.txt"]);
    assert!(app.lists.changes.rows.is_empty(), "applied changes should no longer be pending");
}

#[test]
fn rule_move_swaps_on_disk_order_and_reloads() {
    let mut eng = Fake::boot();
    let mut app = start(&mut eng);
    app.ui.focus = Pane::Rules;
    commit_rule(&mut app, &mut eng, "apply src/**", None);
    commit_rule(&mut app, &mut eng, "discard **/*.log", None);
    assert_eq!(
        eng.rules_file.lines().collect::<Vec<_>>(),
        vec!["apply src/**", "discard **/*.log"],
        "two rules in insertion order on disk"
    );
    app.side.sel_rule = 0;
    app.move_rule(true);
    settle(&mut app, &mut eng);
    assert_eq!(app.side.sel_rule, 1, "cursor should follow the moved rule");
    assert_eq!(
        eng.rules_file.lines().collect::<Vec<_>>(),
        vec!["discard **/*.log", "apply src/**"],
        "ctrl-down must swap the on-disk order; got: {:?}",
        eng.rules_file
    );
    assert!(
        app.ui.status.contains("reloaded"),
        "rule move should reload_rules; status={}",
        app.ui.status
    );
}

#[test]
fn box_detail_pane_shows_status_cmd_pid_age_and_changes_count() {
    let mut eng = Fake::boot();
    eng.write_file("root/box_detail_marker.txt", 3);
    let mut app = start(&mut eng);
    let buf = render(&mut app, 160, 30);
    assert!(buf.contains("BOX · DETAIL"), "block title missing:\n{buf}");
    assert!(buf.contains("status  "), "status label missing:\n{buf}");
    assert!(buf.contains("cmd     "), "cmd label missing:\n{buf}");
    assert!(buf.contains("pid     "), "pid label missing:\n{buf}");
    assert!(buf.contains("age "), "age label missing:\n{buf}");
    assert!(buf.contains("changes "), "changes count line missing:\n{buf}");
    assert!(buf.contains("[↵ to review]"), "↵ to review label missing for finished box:\n{buf}");
    assert!(
        buf.contains("box_detail_marker.txt"),
        "recent preview missing the written path:\n{buf}"
    );
}

#[test]
fn menubar_chips_track_focus() {
    let mut eng = Fake::boot();
    let mut app = start(&mut eng);
    let buf = render(&mut app, 160, 30);
    for lab in ["Boxes", "Changes", "Rules", "Help"] {
        assert!(buf.contains(lab), "menubar chip {lab:?} missing:\n{buf}");
    }
    for k in ['b', 'c', 'e', '?'] {
        let lit = format!("({k})");
        assert!(buf.contains(&lit), "menubar accelerator {lit:?} missing:\n{buf}");
    }
    app.ui.focus = Pane::Processes;
    load(&mut app, &mut eng, FilterView::Procs);
    let buf2 = render(&mut app, 160, 30);
    assert!(buf2.contains("Procs"), "Procs label missing after focus:\n{buf2}");
}

#[test]
fn cmdline_shows_active_filter_expression() {
    let mut eng = Fake::boot();
    eng.write_file("root/keepme_PUMPKIN.txt", 1);
    eng.write_file("root/other_THING.txt", 1);
    let mut app = start(&mut eng);
    app.ui.focus = Pane::Changes;
    app.commit_filter(FilterView::Changes, &row_of("path", "**/PUMPKIN*"));
    settle(&mut app, &mut eng);
    let buf = render(&mut app, 160, 30);
    assert!(buf.contains("filter"), "cmdline must surface 'filter' tag when one is active:\n{buf}");
    assert!(buf.contains("path:**/PUMPKIN*"), "filter expression missing from cmdline:\n{buf}");
}

#[test]
fn changes_pane_uses_plus_glyph_for_created_file() {
    let mut eng = Fake::boot();
    eng.write_file("tmp/created_only_xyzzy.txt", 5);
    let mut app = start(&mut eng);
    app.ui.focus = Pane::Changes;
    let buf = render(&mut app, 160, 30);
    assert!(
        buf.contains("created_only_xyzzy.txt"),
        "the file should appear in the changes pane:\n{buf}"
    );
    assert!(buf.contains('+'), "created file should render with '+' glyph:\n{buf}");
}

#[test]
fn cd_info_strip_shows_selected_change_path_and_meta() {
    let mut eng = Fake::boot();
    eng.write_file("tmp/cd_info_TARGET.txt", 13);
    let mut app = start(&mut eng);
    open(&mut app, &mut eng);
    open(&mut app, &mut eng);
    let buf = render(&mut app, 160, 40);
    assert!(
        buf.contains("/tmp/cd_info_TARGET.txt"),
        "cd-info should show the leading-slashed full path:\n{buf}"
    );
    assert!(buf.contains("path"), "cd-info title 'path' missing:\n{buf}");
    assert!(buf.contains("created · 13"), "kind and size:\n{buf}");
    assert!(buf.contains("-rw-r--r--"), "mode:\n{buf}");
}

#[test]
fn page_down_advances_cursor_by_page_size_in_changes() {
    let mut eng = Fake::boot();
    for i in 0..60 {
        eng.write_file(&format!("tmp/page/f_{i:04}.txt"), 1);
    }
    let mut app = start(&mut eng);
    app.ui.focus = Pane::Changes;
    let before = app.lists.changes.start + app.lists.changes.sel;
    app.page_down();
    settle(&mut app, &mut eng);
    let after = app.lists.changes.start + app.lists.changes.sel;
    let moved = after - before;
    assert!(moved > 1, "page_down should move more than 1 row, got {moved}");
    assert!(moved <= PAGE_SIZE * 2, "page_down moved {moved} rows, expected around {PAGE_SIZE}");
}

#[test]
fn sessions_pane_renders_top_level_box() {
    let mut eng = Fake::boot();
    let mut app = start(&mut eng);
    assert!(!app.boxes.sessions.is_empty(), "expected at least one session");
    let buf = render(&mut app, 160, 30);
    assert!(buf.contains('F') || buf.contains('R'), "session F/R status flag missing:\n{buf}");
    assert!(buf.contains("Name"), "Name column header missing:\n{buf}");
    assert!(buf.contains("PID"), "PID column header missing:\n{buf}");
    assert!(buf.contains("Cmd"), "Cmd column header missing:\n{buf}");
    assert!(buf.contains("Age"), "Age column header missing:\n{buf}");
}

#[test]
fn pipelines_and_build_edges_panes_render() {
    let mut eng = Fake::boot();
    let mut app = start(&mut eng);
    app.ui.focus = Pane::Pipelines;
    load(&mut app, &mut eng, FilterView::Pipelines);
    let buf = render(&mut app, 160, 30);
    assert!(buf.contains("PIPELINES"), "pipelines title missing:\n{buf}");
    assert!(buf.contains("no pipelines yet"), "empty-state hint missing on pipelines pane:\n{buf}");
    assert!(
        buf.contains("(l)") || buf.contains("Pipes"),
        "menubar must surface the pipelines chip:\n{buf}"
    );
    app.ui.focus = Pane::BuildEdges;
    load(&mut app, &mut eng, FilterView::BuildEdges);
    let buf = render(&mut app, 160, 30);
    assert!(buf.contains("BUILD EDGES"), "build-edges title missing:\n{buf}");
    assert!(buf.contains("no build edges yet"), "empty-state hint missing on build-edges pane:\n{buf}");
    assert!(
        buf.contains("(g)") || buf.contains("Build"),
        "menubar must surface the build-edges chip:\n{buf}"
    );
}

#[test]
fn pipelines_pane_shows_live_brushprov_row() {
    let mut eng = Fake::boot();
    eng.pipelines = vec![v(
        r#"{"id": 1, "uid": 10, "parent_uid": 0, "cmd": "echo hi | tr a-z A-Z > /tmp/brush_pipe_uitest.txt",
         "started_ts": 1.5, "ended_ts": 1.75}"#,
    )];
    let mut app = start(&mut eng);
    app.boxes.sel = 0;
    app.ui.focus = Pane::Pipelines;
    load(&mut app, &mut eng, FilterView::Pipelines);
    assert!(!app.lists.pipelines.rows.is_empty(), "the recorded pipeline is listed");
    let buf = render(&mut app, 160, 30);
    assert!(!buf.contains("no pipelines yet"), "{buf}");
    assert!(
        buf.contains("tr") && buf.contains("echo hi"),
        "rendered pane does not surface the recorded cmd:\n{buf}"
    );
}

#[test]
fn a_removed_box_is_gone_after_its_event() {
    let mut eng = Fake::boot();
    let mut app = start(&mut eng);
    eng.sessions.clear();
    app.on_event(&j(r#"{"type": "session_removed", "sid": "1"}"#));
    settle(&mut app, &mut eng);
    assert!(app.boxes.sessions.is_empty());
    assert_eq!(app.ui.status, "event: session_removed");
    app.on_event(&j(r#"{"type": "pong"}"#));
    assert_eq!(app.ui.status, "pong");
}

#[test]
fn keys_drive_the_whole_client() {
    let mut eng = Fake::boot();
    eng.write_file("tmp/a.txt", 1);
    eng.write_file("tmp/b.txt", 2);
    let mut app = start(&mut eng);
    let mut press = |app: &mut App, eng: &mut Fake, code: KeyCode| {
        app.on_key(code, NO_MODS, 0);
        settle(app, eng);
    };
    press(&mut app, &mut eng, KeyCode::Enter);
    assert_eq!(app.ui.focus, Pane::Changes);
    press(&mut app, &mut eng, KeyCode::Down);
    assert_eq!(app.cur_change_path(), Some("tmp/b.txt"));
    press(&mut app, &mut eng, KeyCode::Char('e'));
    assert_eq!(app.ui.focus, Pane::Rules);
    press(&mut app, &mut eng, KeyCode::Char('?'));
    assert_eq!(app.ui.focus, Pane::Help);
    press(&mut app, &mut eng, KeyCode::Char('q'));
    assert!(app.ui.should_quit);
}

#[test]
fn an_engine_that_does_not_answer_is_reported() {
    let env = Env { sock: "/run/ui.sock".into(), exe: "sarun".into(), shell: "/bin/sh".into() };
    let mut app = App::new(env, true);
    for _ in 0..100 {
        match app.next() {
            Turn::Idle => break,
            Turn::Outside(Step::Call { then, .. }) => app.answer(then, Err("connect: refused".into())),
            _ => {}
        }
    }
    assert!(app.ui.status.contains("connect: refused"), "{}", app.ui.status);
    assert!(app.boxes.sessions.is_empty());
}
