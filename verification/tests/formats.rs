use sarun_ui::app::{App, Env, Step};
use sarun_ui::boxpane::box_detail_lines;
use sarun_ui::fmt::{
    bold_count, filemode, fmt_age, fmt_bytes, fmt_dur, hexdump_into, makevar_site, octal, scroll_for_cursor,
    session_flag, tail_trunc, title, tree_indent,
};
use sarun_ui::images::{build_image_picker, catalog_from, image_catalog, resolve_detail, Candidate, ContainersConf, Resolved};
use sarun_ui::json::Json;
use sarun_ui::num::{Num, Real};
use sarun_ui::outside::Rect;
use sarun_ui::pipepane::{build_edge_detail_lines, pipeline_detail_lines};
use sarun_ui::plan::{rename_request, request, Turn};
use sarun_ui::render::{file_name, flatten, last_part, legend_lines, micros_text, millis_text, time_label};
use sarun_ui::screen::{divide, wrapped_rows};
use sarun_ui::style::{raw, Color, Line, Text};
use sarun_ui::text::{is_whitespace, join, split_lines, split_words, trim};
use sarun_ui::types::{Pane, PickNext};

fn headless_app() -> App {
    let env = Env { sock: String::new(), exe: "sarun".into(), shell: "/bin/sh".into() };
    App::blank(env, true, Pane::Help, "")
}

/// The characters of each line of a text.
fn lines_of(t: &Text) -> Vec<String> {
    t.lines.iter().map(|l| l.spans.iter().map(|s| s.text.as_str()).collect::<Vec<_>>().concat()).collect()
}

#[test]
fn sizes_are_written_in_the_largest_unit() {
    for (n, want) in [
        (0, "0 B"),
        (1023, "1023 B"),
        (1024, "1.0 KiB"),
        (1536, "1.5 KiB"),
        (1048575, "1024.0 KiB"),
        (1048576, "1.0 MiB"),
        (3221225472, "3.0 GiB"),
        (-5, "-5 B"),
    ] {
        assert_eq!(fmt_bytes(n), want);
    }
}

#[test]
fn sizes_are_rounded_as_floats_are() {
    let by_float = |n: i64| {
        let mut v = n as f64;
        let mut unit = "B";
        for u in ["KiB", "MiB", "GiB", "TiB"] {
            if v < 1024.0 {
                break;
            }
            v /= 1024.0;
            unit = u;
        }
        if unit == "B" {
            format!("{} B", v as i64)
        } else {
            format!("{v:.1} {unit}")
        }
    };
    let mut n: i64 = 1;
    while n < i64::MAX / 3 {
        for d in [-1, 0, 1, 51, 52, 256] {
            assert_eq!(fmt_bytes(n + d), by_float(n + d), "{}", n + d);
        }
        n = n * 3 / 2 + 1;
    }
    assert_eq!(fmt_bytes(i64::MAX), by_float(i64::MAX));
}

fn num(x: f64) -> Num {
    Num::of_real(&Real::of_float(x.to_bits()))
}

#[test]
fn durations_keep_fewer_decimals_the_longer_they_are() {
    for (secs, want) in [
        (-1.0, "0ms"),
        (0.0, "0ms"),
        (0.0015, "2ms"),
        (0.0045, "5ms"),
        (0.999, "999ms"),
        (1.015, "1.01s"),
        (1.234, "1.23s"),
        (9.995, "9.99s"),
        (12.34, "12.3s"),
        (12.25, "12.2s"),
        (60.0, "1m00s"),
        (125.0, "2m05s"),
        (119.5, "1m60s"),
    ] {
        assert_eq!(fmt_dur(&num(secs)), want);
    }
}

/// Numbers of many sizes, none of them written in few bits.
fn samples() -> Vec<f64> {
    let mut out = vec![0.0, 0.5, 1.0, 59.999, 60.0, 1e-5, 1.005, 2.675, 1_700_000_000.123456];
    let mut x = 1.0e-6;
    while x < 9.0e18 {
        out.push(x);
        out.push(-x);
        x *= 1.0371;
    }
    out
}

#[test]
fn durations_are_those_of_floats() {
    let by_float = |t: f64| {
        if t <= 0.0 {
            "0ms".to_string()
        } else if t < 1.0 {
            format!("{}ms", (t * 1000.0).round() as i64)
        } else if t < 10.0 {
            format!("{t:.2}s")
        } else if t < 60.0 {
            format!("{t:.1}s")
        } else {
            let m = (t / 60.0) as i64;
            let s = (t - (m as f64) * 60.0).round() as i64;
            format!("{m}m{s:02}s")
        }
    };
    for t in samples() {
        assert_eq!(fmt_dur(&num(t)), by_float(t), "{t}");
    }
    for i in 0..6500 {
        let t = i as f64 / 100.0 + 0.005;
        assert_eq!(fmt_dur(&num(t)), by_float(t), "{t}");
    }
}

#[test]
fn differences_are_those_of_floats() {
    let all = samples();
    for (i, a) in all.iter().enumerate() {
        for b in all.iter().skip(i % 61).step_by(61) {
            let d = num(*a).minus(&num(*b));
            assert_eq!(d.whole(), (a - b) as i64, "{a} - {b}");
            if (a - b).abs() > 1.0 {
                assert_eq!(d, num(a - b), "{a} - {b}");
            }
        }
    }
}

#[test]
fn decimals_are_those_of_floats() {
    for t in samples() {
        assert_eq!(millis_text(&num(t)), format!("{t:.3}"));
        assert_eq!(micros_text(&num(t)), format!("{t:.6}"));
    }
    for n in [0, 1, -7, i64::MAX, i64::MIN, (1 << 53) + 1, (1 << 60) + 64] {
        assert_eq!(Json::Int(n).as_num(), Some(num(n as f64)));
    }
    assert_eq!(Json::Big(u64::MAX).as_num().map(|n| micros_text(&n)), Some(format!("{:.6}", u64::MAX as f64)));
    assert_eq!(micros_text(&num(1e300)).len(), 27);
    assert!(num(f64::MIN_POSITIVE).above_zero());
    assert!(num(-0.0).is_zero());
}

#[test]
fn ages_are_seconds_minutes_or_hours() {
    assert_eq!(fmt_age(&num(100.0), &num(100.0)), "0s");
    assert_eq!(fmt_age(&num(100.0), &num(200.0)), "0s");
    assert_eq!(fmt_age(&num(100.9), &num(41.0)), "59s");
    assert_eq!(fmt_age(&num(200.0), &num(0.0)), "3m20s");
    assert_eq!(fmt_age(&num(7384.0), &num(0.0)), "2h03m");
    assert_eq!(fmt_age(&num(1e19), &num(0.0)), "2562047788015215h30m");
}

#[test]
fn times_of_day_are_written_with_two_digits() {
    assert_eq!(time_label(&num(3723.0)), "01:02:03");
    assert_eq!(time_label(&num(86400.0)), "00:00:00");
    assert_eq!(time_label(&num(-0.5)), "00:00:00");
    assert_eq!(time_label(&num(-1.5)), "23:59:59");
    assert_eq!(millis_text(&num(38.052)), "38.052");
    assert_eq!(millis_text(&num(-0.0)), "-0.000");
    assert_eq!(millis_text(&num(0.0625)), "0.062");
    assert_eq!(micros_text(&num(0.451428)), "0.451428");
    assert_eq!(micros_text(&num(0.9999999)), "1.000000");
}

#[test]
fn modes_are_written_as_a_listing_does() {
    assert_eq!(filemode(0o100644), "-rw-r--r--");
    assert_eq!(filemode(0o040755), "drwxr-xr-x");
    assert_eq!(filemode(0o120777), "lrwxrwxrwx");
    assert_eq!(filemode(0), "?---------");
    assert_eq!(octal(0o755), "755");
    assert_eq!(octal(0), "0");
}

#[test]
fn bytes_are_dumped_sixteen_to_a_row() {
    let mut out: Vec<String> = vec!["head".into()];
    hexdump_into(&b"0123456789abcdefXY\x00".to_vec(), &mut out);
    assert_eq!(out.len(), 3);
    assert_eq!(out[1], "0000  30 31 32 33 34 35 36 37 38 39 61 62 63 64 65 66   0123456789abcdef");
    assert_eq!(out[2], format!("0010  {:<48}  XY.", "58 59 00"));
    let mut long: Vec<String> = vec![];
    hexdump_into(&vec![7u8; 1000], &mut long);
    assert_eq!(long.len(), 16);
}

#[test]
fn long_paths_keep_their_end() {
    assert_eq!(tail_trunc("src/main.c:12", 20), "src/main.c:12");
    assert_eq!(tail_trunc("a/very/long/path/main.c:12", 10), "…main.c:12");
    assert_eq!(last_part("a.b.c", '.'), "c");
    assert_eq!(last_part("abc", '.'), "abc");
    assert_eq!(file_name("/usr/bin/gcc"), "gcc");
    assert_eq!(flatten("a\nb c", 3), "a b");
}

#[test]
fn lists_scroll_with_their_cursor() {
    assert_eq!(scroll_for_cursor(0, 100, 12), 0);
    assert_eq!(scroll_for_cursor(50, 100, 12), 47);
    assert_eq!(scroll_for_cursor(99, 100, 12), 90);
    assert_eq!(scroll_for_cursor(5, 8, 12), 0);
    assert_eq!(scroll_for_cursor(5, 8, 1), 0);
}

#[test]
fn small_words() {
    assert_eq!(bold_count(1), "1 file");
    assert_eq!(bold_count(3), "3 files");
    assert_eq!(title("help", true), " help ");
    assert_eq!(tree_indent(0), "");
    assert_eq!(session_flag("running"), ("R", Color::Green));
    assert_eq!(session_flag("finished").0, "F");
    assert_eq!(session_flag("killed").0, "K");
    assert_eq!(session_flag("error").0, "E");
    assert_eq!(session_flag("odd").0, "?");
}

#[test]
fn variables_are_placed_under_their_makefile() {
    let row = |loc: &str, make: &str| Json::obj().with("loc", Json::text(loc)).with("make", Json::text(make));
    assert_eq!(makevar_site(&row("sub/x.mk:3", "/src")), "/src/sub/x.mk:3");
    assert_eq!(makevar_site(&row("/abs/x.mk:3", "/src")), "/abs/x.mk:3");
    assert_eq!(makevar_site(&row("x.mk:3", "make")), "x.mk:3");
}

#[test]
fn white_space_is_what_unicode_says() {
    for n in 0..=0x10ffffu32 {
        if let Some(c) = char::from_u32(n) {
            assert_eq!(is_whitespace(c), c.is_whitespace(), "U+{n:04X}");
        }
    }
}

#[test]
fn texts_are_taken_apart_as_std_does() {
    for s in ["", " a b\t c ", "one", "\u{a0}x\u{3000}y", "a\nb\r\nc\n", "\n\n", "x\r"] {
        assert_eq!(trim(s), s.trim());
        assert_eq!(split_words(s), s.split_whitespace().map(str::to_string).collect::<Vec<_>>());
        assert_eq!(split_lines(s), s.lines().map(str::to_string).collect::<Vec<_>>());
    }
    assert_eq!(join(&vec!["a".to_string(), "b".to_string()], ", "), "a, b");
}

#[test]
fn legends_wrap_at_words() {
    let t = legend_lines("one two three four", 40);
    assert_eq!(lines_of(&t).concat().split_whitespace().count(), 4);
    let narrow = legend_lines("one two three four five six seven eight nine ten eleven twelve", 24);
    assert!(narrow.lines.len() > 1);
    assert!(lines_of(&narrow).iter().all(|l| l.chars().count() <= 24));
}

#[test]
fn wide_characters_take_two_columns() {
    let lines = vec![raw("abcdef"), raw("日本語"), raw("")];
    assert_eq!(wrapped_rows(&lines, 3, 6), 3);
    assert_eq!(wrapped_rows(&lines, 1, 3), 2);
    assert_eq!(wrapped_rows(&lines, 2, 3), 4);
    assert_eq!(wrapped_rows(&lines, 0, 3), 0);
    assert_eq!(wrapped_rows(&lines, 3, 0), 6 + 6 + 1);
}

#[test]
fn the_screen_is_divided_into_parts_of_it() {
    let mut app = headless_app();
    app.ui.focus = Pane::Sessions;
    let whole = Rect { x: 0, y: 0, width: 100, height: 40 };
    let p = divide(&app, whole);
    for r in [p.menubar, p.left, p.right, p.cmdline, p.fkeybar, p.status] {
        assert!(r.x + r.width <= 100 && r.y + r.height <= 40, "{r:?}");
    }
    assert_eq!((p.menubar.y, p.menubar.height, p.menubar.width), (0, 1, 100));
    assert_eq!((p.status.y, p.status.height), (39, 1));
    assert_eq!((p.left.width, p.right.width), (45, 55));
    assert_eq!(p.left.height, 36);
}

#[test]
fn a_failure_shows_the_first_line_of_what_it_wrote() {
    let mut app = headless_app();
    app.boxes.sessions = vec![Json::obj().with("session_id", Json::text("1"))];
    let failure = |excerpt: &str| {
        Json::obj()
            .with("kind", Json::text("edge"))
            .with("label", Json::text("a.o"))
            .with("code", Json::Int(1))
            .with("excerpt", Json::text(excerpt))
    };
    for (excerpt, want) in [
        ("a.c:1: error: x\nmake: *** Error 1\n", "     a.c:1: error: x"),
        ("\n  \n b.c:2: error: y\nmore", "      b.c:2: error: y"),
    ] {
        app.boxes.summary = Json::obj().with("failures", Json::Arr(vec![failure(excerpt)]));
        let ls = lines_of(&box_detail_lines(&app, Rect { x: 0, y: 0, width: 100, height: 40 }, &Real::of_float(0)));
        let at = ls.iter().position(|l| l == "  ✗E a.o  exit 1").expect("the failure");
        assert_eq!(ls[at + 1], want);
    }
    app.boxes.summary = Json::obj().with("failures", Json::Arr(vec![failure(" \n\n")]));
    let ls = lines_of(&box_detail_lines(&app, Rect { x: 0, y: 0, width: 100, height: 40 }, &Real::of_float(0)));
    let at = ls.iter().position(|l| l == "  ✗E a.o  exit 1").expect("the failure");
    assert_eq!(ls[at + 1], "");
}

/// The pieces of a line.
fn pieces(l: &Line) -> Vec<&str> {
    l.spans.iter().map(|s| s.text.as_str()).collect()
}

#[test]
fn a_raw_line_has_a_span_for_each_line_of_its_text() {
    assert_eq!(pieces(&raw("one")), vec!["one"]);
    assert_eq!(pieces(&raw("one\ntwo\r\n\nfour\n")), vec!["one", "two", "", "four"]);
    assert!(raw("").spans.is_empty());
    let mut app = headless_app();
    app.lists.edges.rows = vec![Json::obj().with("cmd", Json::text("cc -c a.c\nld a.o"))];
    let t = build_edge_detail_lines(&app);
    let at = t.lines.iter().position(|l| pieces(l) == vec!["recipe"]).expect("a recipe");
    assert_eq!(pieces(&t.lines[at + 1]), vec!["cc -c a.c", "ld a.o"]);
    assert_eq!(wrapped_rows(&vec![raw("abc\ndef")], 1, 6), 1);
    assert_eq!(wrapped_rows(&vec![raw("abc\ndefg")], 1, 6), 2);
}

#[test]
fn a_target_tells_how_long_it_took() {
    let time = |x: f64| Json::Real(Real::of_float(x.to_bits()), x.to_string());
    let mut app = headless_app();
    app.lists.edges.rows = vec![Json::obj()
        .with("ts", time(1_700_000_000.25))
        .with("started_ts", time(1_700_000_000.1))
        .with("ended_ts", time(1_700_000_001.105))];
    let ls = lines_of(&build_edge_detail_lines(&app));
    let took = 1_700_000_001.105 - 1_700_000_000.1;
    assert!(ls.contains(&format!("state     done in {took:.2}s (exit 0)")), "{ls:?}");
    assert!(ls.contains(&"ts        1700000000.250000".to_string()), "{ls:?}");
}

#[test]
fn records_are_written_over_several_lines() {
    let mut app = headless_app();
    app.lists.pipelines.rows = vec![Json::obj().with("cmd", Json::text("a | b")).with(
        "record",
        Json::obj().with("n", Json::Int(1)).with("t", Json::Real(Real::of_float(1.5f64.to_bits()), "1.5".into())),
    )];
    let ls = lines_of(&pipeline_detail_lines(&app, &None));
    let at = ls.iter().position(|l| l == "{").expect("a record");
    assert_eq!(&ls[at..], &["{", "  \"n\": 1,", "  \"t\": 1.5", "}"]);
}

const CATALOG: &str = r#"
[[group]]
name = "Tools"
image = "corp/tools"
tags = ["1", "2"]

[[group]]
name = "Plain"
image = "plain"

[[group]]
image = "nameless"
"#;

#[test]
fn a_catalogue_of_ones_own_is_read() {
    let c = image_catalog(Some(CATALOG.into()));
    let got: Vec<(&str, &str, usize)> =
        c.iter().map(|g| (g.name.as_str(), g.image.as_str(), g.tags.len())).collect();
    assert_eq!(got, vec![("Tools", "corp/tools", 2), ("Plain", "plain", 1)]);
    assert_eq!(c[1].tags, vec!["latest"]);
    assert_eq!(image_catalog(Some("not = [toml".into())).len(), 6);
    assert_eq!(image_catalog(Some("x = 1".into()))[0].name, "Ubuntu");
    assert_eq!(catalog_from(&None).len(), image_catalog(None).len());
}

#[test]
fn references_say_where_they_lead() {
    let cand = |r: &str, via: &str| Candidate { reference: r.into(), via: via.into() };
    let conf = ContainersConf {
        sources: vec![],
        aliases: vec![],
        resolved: vec![
            ("a".into(), Resolved { blocked: None, candidates: vec![cand("docker.io/library/a", "")] }),
            ("b".into(), Resolved { blocked: Some("no".into()), candidates: vec![] }),
            ("c".into(), Resolved { blocked: None, candidates: vec![cand("m/c", "mirror")] }),
        ],
    };
    assert_eq!(resolve_detail(&conf, "a"), "docker.io/library/a");
    assert_eq!(resolve_detail(&conf, "b"), "BLOCKED: no");
    assert_eq!(resolve_detail(&conf, "c"), "m/c (mirror)");
    assert_eq!(resolve_detail(&conf, "d"), "unresolvable");
    let top = build_image_picker(&conf, &vec![], &vec![]);
    assert!(matches!(top.last().unwrap().next, PickNext::EnterRef(_)));
}

#[test]
fn an_endpoint_is_written_with_its_quotes_escaped() {
    let mut app = headless_app();
    assert!(app.save_api_config(" http://h/v1 ", "a \"b\"", ""));
    let Turn::Outside(Step::WriteApiConfig(text)) = app.next() else {
        panic!("the file is written");
    };
    assert_eq!(text, "model = \"a \\\"b\\\"\"\nbase_url = \"http://h/v1\"\n");
    app.api_config_written("/c/oaita.toml", Err("disk full".into()));
    assert!(app.ui.status.contains("disk full"), "{}", app.ui.status);
    assert!(!app.save_api_config("http://h", "   ", ""), "a model is asked for");
}

#[test]
fn calls_are_written_as_the_engine_reads_them() {
    let r = request("view.open", vec![Json::text("changes"), Json::Int(1)]);
    assert_eq!(r.get_str("type"), Some("ui"));
    assert_eq!(r.get_str("verb"), Some("view.open"));
    assert_eq!(r.get_arr("args").map(|a| a.len()), Some(2));
    let r = rename_request("7", "NEW");
    assert_eq!((r.get_str("type"), r.get_str("sid"), r.get_str("name")), (Some("rename"), Some("7"), Some("NEW")));
}
