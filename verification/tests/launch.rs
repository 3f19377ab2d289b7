use sarun_ui::app::{App, Env, NetMode};
use sarun_ui::launch::{build_launch, oaita_session_for_box, slugify, How, LaunchTarget, Placement};
use sarun_ui::menus::pty_command_configured;
use sarun_ui::shell::{shell_join, shell_split};
use sarun_ui::types::Pane;

fn how(net: &str, placement: Placement) -> How {
    How { net: net.to_string(), env: false, placement, webcap: false, webfilter: false }
}

fn headless_app() -> App {
    let env = Env { sock: String::new(), exe: "sarun".into(), shell: "/bin/sh".into() };
    App::blank(env, true, Pane::Help, "")
}

#[test]
fn shell_split_handles_quotes() {
    assert_eq!(shell_split("bash"), vec!["bash"]);
    assert_eq!(
        shell_split("sarun run -b -- make all"),
        vec!["sarun", "run", "-b", "--", "make", "all"]
    );
    assert_eq!(shell_split("sh -c 'echo hi there'"), vec!["sh", "-c", "echo hi there"]);
    assert_eq!(shell_split(r#"a "b c" d"#), vec!["a", "b c", "d"]);
    assert!(shell_split("   ").is_empty());
}

#[test]
fn build_launch_browser_persists_and_captures() {
    let how = How {
        net: "tap".into(),
        env: false,
        placement: Placement::Reuse("BROWSER".into()),
        webcap: true,
        webfilter: true,
    };
    let argv = build_launch(
        &LaunchTarget::Browser { url: "https://example.com".into(), spki: Some("AbC=".into()) },
        &how,
    );
    let j = argv.join(" ");
    assert!(
        j.starts_with(
            "sarun oci run --net tap --name BROWSER --webcap --webfilter \
             docker.io/fathyb/carbonyl@sha256:"
        ),
        "persistent + captured + filtered oci run, got {j:?}"
    );
    assert!(
        argv.contains(&"--".to_string()) && argv.contains(&"/carbonyl/carbonyl".to_string()),
        "explicit CMD names the binary, got {j:?}"
    );
    for flag in [
        "--no-sandbox",
        "--disable-dev-shm-usage",
        "--user-data-dir=/carbonyl/data",
        "--ignore-certificate-errors-spki-list=AbC=",
    ] {
        assert!(argv.iter().any(|a| a == flag), "missing {flag} in {j:?}");
    }
    assert_eq!(
        argv.last().map(String::as_str),
        Some("https://example.com"),
        "validated URL last, got {j:?}"
    );
    let argv = build_launch(&LaunchTarget::Browser { url: "  ".into(), spki: None }, &how);
    assert!(!argv.iter().any(|a| a.contains("spki")), "no empty spki flag");
    assert_eq!(argv.last().map(String::as_str), Some("about:blank"));
}

#[test]
fn build_launch_honors_net_and_env_for_every_target() {
    let h = How {
        net: "host".into(),
        env: true,
        placement: Placement::New,
        webcap: false,
        webfilter: false,
    };
    assert_eq!(
        build_launch(&LaunchTarget::Shell, &h),
        vec!["sarun", "run", "-b", "--net", "host", "-e", "--"]
    );
    assert_eq!(
        build_launch(&LaunchTarget::Command(vec!["make".into()]), &h),
        vec!["sarun", "run", "-b", "--net", "host", "-e", "--", "make"]
    );
    assert_eq!(
        build_launch(&LaunchTarget::Image("alpine:3.20".into()), &h),
        vec!["sarun", "oci", "run", "--net", "host", "alpine:3.20"]
    );
    let hs = build_launch(&LaunchTarget::HostShell { shell: "/bin/bash".into() }, &h);
    assert_eq!(hs.len(), 1, "host shell is bare, got {hs:?}");
    assert_eq!(hs[0], "/bin/bash");
}

#[test]
fn build_launch_placement_is_uniform() {
    let n = |p| how("tap", p);
    assert_eq!(
        build_launch(&LaunchTarget::Shell, &n(Placement::New)),
        vec!["sarun", "run", "-b", "--net", "tap", "--"]
    );
    assert_eq!(
        build_launch(&LaunchTarget::Shell, &n(Placement::Reuse("WORK".into()))),
        vec!["sarun", "run", "-b", "--net", "tap", "WORK", "--"]
    );
    assert_eq!(
        build_launch(&LaunchTarget::Command(vec!["make".into()]), &n(Placement::On("BUILD".into()))),
        vec!["sarun", "run", "-b", "--net", "tap", "BUILD.make", "--", "make"]
    );
    assert_eq!(
        build_launch(&LaunchTarget::Image("alpine".into()), &n(Placement::Reuse("A".into()))),
        vec!["sarun", "oci", "run", "--net", "tap", "--name", "A", "alpine"]
    );
    assert_eq!(
        build_launch(&LaunchTarget::Image("alpine".into()), &n(Placement::On("X".into()))),
        vec!["sarun", "oci", "run", "--net", "tap", "alpine"]
    );
}

#[test]
fn build_launch_ai_on_box_is_the_agent_natural_placement() {
    let argv = build_launch(
        &LaunchTarget::Ai { task: "fix the bug".into() },
        &how("host", Placement::On("WORK".into())),
    );
    assert_eq!(
        argv,
        vec![
            "sarun", "oaita", "run", "--on", "WORK", "--net", "host", "--task", "fix the bug",
            "workagent"
        ]
    );
}

#[test]
fn shell_join_roundtrips_through_shell_split() {
    for argv in [
        build_launch(
            &LaunchTarget::Browser { url: "https://x.test".into(), spki: Some("A=".into()) },
            &how("tap", Placement::New),
        ),
        vec!["sarun".into(), "run".into(), "-b".into(), "--".into(), "echo".into(), "a b".into()],
    ] {
        assert_eq!(
            shell_split(&shell_join(&argv)),
            argv,
            "join/split roundtrip failed for {argv:?}"
        );
    }
}

#[test]
fn shell_join_quotes_what_would_fall_apart() {
    let argv: Vec<String> = vec!["a".into(), String::new(), "b c".into(), "x\"y".into(), "t\tu".into()];
    let line = shell_join(&argv);
    assert_eq!(line, "a '' 'b c' 'x\"y' 't\tu'");
    assert_eq!(shell_split(&line), argv);
}

#[test]
fn any_argument_survives_the_command_line() {
    for a in ["it's", "'", "''", "\\'", "\\", "a\\", "\"'\"", "don't say 'no'", "\\\\''"] {
        let argv: Vec<String> = vec!["echo".into(), a.into(), "x".into()];
        assert_eq!(shell_split(&shell_join(&argv)), argv, "{a}");
        assert_eq!(shell_split(&shell_join(&vec![a.to_string()])), vec![a]);
    }
    assert_eq!(shell_join(&vec!["it's".to_string()]), r"'it'\''s'");
    assert_eq!(shell_split(r"it\'s a\b"), vec!["it's", r"a\b"]);
}

#[test]
fn shell_split_ends_an_open_quote_at_the_end() {
    assert_eq!(shell_split("a 'b c"), vec!["a", "b c"]);
    assert_eq!(shell_split("a\t b\n c"), vec!["a", "b", "c"]);
    assert_eq!(shell_split("x'y z'w"), vec!["xy zw"]);
}

#[test]
fn pty_default_cmd_is_configurable_not_enforced() {
    assert_eq!(
        pty_command_configured("# comment\n\nsarun run -b -- make\n").as_deref(),
        Some("sarun run -b -- make"),
        "configured login command must be used verbatim"
    );
    assert_eq!(pty_command_configured(""), None, "no config → None → unified template prefill");
    assert_eq!(pty_command_configured("# only a comment\n   \n"), None);
}

#[test]
fn oaita_box_argv_carries_the_selected_network() {
    let mut app = headless_app();
    app.jobs.launch.net = NetMode::Host;
    let argv = build_launch(
        &LaunchTarget::Ai { task: "what os is this?".into() },
        &app.how(Placement::On("C1".into())),
    );
    let i = argv.iter().position(|a| a == "--net").expect("--net present");
    assert_eq!(argv[i + 1], "host", "host selection must reach the box");
    app.jobs.launch.net = NetMode::Off;
    let argv = build_launch(&LaunchTarget::Ai { task: "x".into() }, &app.how(Placement::On("C1".into())));
    let i = argv.iter().position(|a| a == "--net").unwrap();
    assert_eq!(argv[i + 1], "off", "off selection must reach the box");
}

#[test]
fn oaita_session_name_is_valid_and_alnum() {
    for (box_name, want) in [("C1", "c1agent"), ("WORK.SUB", "worksubagent"), ("---", "boxagent")] {
        let s = oaita_session_for_box(box_name);
        assert_eq!(s, want);
        assert!(
            !s.is_empty() && s.chars().all(|c| c.is_ascii_alphanumeric()),
            "derived session {s:?} must be valid"
        );
    }
}

#[test]
fn network_modes_come_round() {
    for m in [NetMode::Tap, NetMode::Host, NetMode::Off] {
        assert_eq!(m.next().next().next(), m);
        assert_ne!(m.next(), m);
    }
    assert_eq!(NetMode::Tap.next().name(), "host");
}

#[test]
fn slugs_hold_letters_and_digits() {
    assert_eq!(slugify("/usr/bin/make", "run"), "usr-bin-make");
    assert_eq!(slugify("***", "run"), "run");
}
