use sarun_ui::jobs::probe_request;
use sarun_ui::start::{path_in, settings_dir, ui_start, Start};

fn args(v: &[&str]) -> Vec<String> {
    v.iter().map(|s| s.to_string()).collect()
}

#[test]
fn the_socket_is_looked_for_in_order() {
    let go = |a: &[&str], env: &str, usual: &str| ui_start(&args(a), env, usual);
    assert_eq!(go(&["--sock", "/a"], "/b", "/c"), Start::Interactive("/a".into()));
    assert_eq!(go(&[], "/b", "/c"), Start::Interactive("/b".into()));
    assert_eq!(go(&["odd"], "", "/c"), Start::Interactive("/c".into()));
    assert_eq!(go(&[], "", ""), Start::NoSocket);
    assert_eq!(go(&["--once", "--sock", "/a"], "", ""), Start::Once("/a".into()));
    assert_eq!(go(&["--sock", "/a", "--sock"], "", "/c"), Start::Interactive("/c".into()));
    assert_eq!(go(&["--sock", "--once"], "", ""), Start::Interactive("--once".into()));
}

#[test]
fn help_comes_before_everything() {
    assert_eq!(ui_start(&args(&["--once", "-h", "--sock", "/a"]), "", ""), Start::Help);
    assert_eq!(ui_start(&args(&["--help"]), "/b", "/c"), Start::Help);
    assert_eq!(ui_start(&args(&["--sock", "-h"]), "", ""), Start::Interactive("-h".into()));
}

#[test]
fn settings_are_kept_by_namespace() {
    let s = |v: &str| Some(v.to_string());
    assert_eq!(settings_dir(None, None, s("/home/u")), "/home/u/.config/slopbox");
    assert_eq!(settings_dir(s("T"), s("/cfg"), s("/home/u")), "/cfg/slopbox.T");
    assert_eq!(settings_dir(s(""), s(""), None), "/root/.config/slopbox");
    assert_eq!(settings_dir(None, s("/cfg/"), None), "/cfg/slopbox");
    assert_eq!(path_in("/cfg/slopbox", "filerules"), "/cfg/slopbox/filerules");
    assert_eq!(path_in("", "filerules"), "filerules");
}

#[test]
fn an_endpoint_is_tested_as_it_is_typed() {
    let r = probe_request("http://h/v1", "m", "SECRET-REDACTED");
    assert_eq!(r.get_str("base_url"), Some("http://h/v1"));
    assert_eq!(r.get_str("model"), Some("m"));
    assert_eq!(r.get_str("api_key"), Some("SECRET-REDACTED"));
}
