use sarun_ui::rules::{
    eval_clauses, path_match, wrap_bare_as_substring, Clause, Join, Match, ProcFilterTarget, Subject,
};
use sarun_ui::types::{clauses_expr, ClauseRow, FilterView};

fn clause(kind: &str, pattern: &str) -> Clause {
    Clause {
        m: Match { kind: kind.into(), pattern: pattern.into() },
        join: Join::And,
        negate: false,
        enabled: true,
    }
}

fn target(row_id: i64, exe: &str, cwd: &str, argv: &[&str], box_name: &str) -> ProcFilterTarget {
    ProcFilterTarget {
        row_id,
        err: false,
        subject: Subject {
            box_name: box_name.into(),
            exe: exe.into(),
            cwd: cwd.into(),
            argv: argv.iter().map(|s| s.to_string()).collect(),
        },
    }
}

#[test]
fn eval_clauses_cross_check_matches_python_semantics() {
    let exe_clause = clause("exe", "**/echo");
    let yes = target(1, "/bin/echo", "/", &["echo", "hi"], "B");
    let no = target(2, "/bin/cat", "", &[], "");
    assert!(eval_clauses(&yes, std::slice::from_ref(&exe_clause)));
    assert!(!eval_clauses(&no, std::slice::from_ref(&exe_clause)));
    let ids_clause = clause("ids", "1,5");
    assert!(eval_clauses(&yes, std::slice::from_ref(&ids_clause)));
    assert!(!eval_clauses(&no, std::slice::from_ref(&ids_clause)));
}

#[test]
fn clauses_fold_from_left_to_right() {
    let t = target(7, "/usr/bin/gcc", "/src", &["gcc", "-c", "a.c"], "WORK");
    let off = Clause { enabled: false, ..clause("exe", "nothing") };
    assert!(eval_clauses(&t, &[]));
    assert!(eval_clauses(&t, std::slice::from_ref(&off)));
    let not_gcc = Clause { negate: true, ..clause("exe", "**/gcc") };
    assert!(!eval_clauses(&t, std::slice::from_ref(&not_gcc)));
    let or_id = Clause { join: Join::Or, ..clause("ids", "7") };
    assert!(eval_clauses(&t, &[not_gcc, or_id]));
    assert!(eval_clauses(&t, std::slice::from_ref(&clause("box", "WORK"))));
    assert!(!eval_clauses(&t, std::slice::from_ref(&clause("box", "PLAY"))));
    assert!(eval_clauses(&t, std::slice::from_ref(&clause("cwd", "/src"))));
}

#[test]
fn bare_words_are_wrapped() {
    assert_eq!(wrap_bare_as_substring("gcc"), "*gcc*");
    assert_eq!(wrap_bare_as_substring("*.c"), "*.c");
    assert!(path_match("**/echo", "/bin/echo"));
    assert!(!path_match("*/echo", "/usr/bin/echo"));
}

#[test]
fn edited_lines_become_clauses() {
    let line = |kind: &str, pattern: &str| ClauseRow {
        enabled: true,
        join: Join::Or,
        negate: true,
        kind: kind.into(),
        pattern: pattern.into(),
    };
    let exe = line("exe", "  gcc ").to_clause();
    assert_eq!(exe.m.pattern, wrap_bare_as_substring("gcc"));
    assert_eq!(exe.join, Join::Or);
    assert!(exe.negate);
    assert_eq!(line("cmd", " make ").to_clause().m.pattern, "make");
    assert_eq!(line("ids", "1,2").to_clause().m.pattern, "1,2");
    let back = ClauseRow::from_clause(&exe);
    assert_eq!((back.kind.as_str(), back.pattern.as_str()), ("exe", exe.m.pattern.as_str()));
}

#[test]
fn clauses_are_written_as_one_line() {
    let mut b = clause("arg", "-c");
    b.join = Join::Or;
    b.negate = true;
    assert_eq!(clauses_expr(&vec![clause("exe", "**/gcc"), b]), "exe:**/gcc or not arg:-c");
    assert_eq!(clauses_expr(&vec![]), "");
}

#[test]
fn every_list_offers_its_kinds() {
    assert_eq!(FilterView::Changes.kinds(), vec!["path", "box", "exe", "cwd", "arg"]);
    assert_eq!(FilterView::Procs.kinds(), vec!["box", "exe", "cwd", "arg"]);
    assert_eq!(FilterView::BuildEdges.kinds(), vec!["target", "cmd"]);
    assert_eq!(FilterView::Pipelines.default_kind(), "cmd");
    for v in [FilterView::Changes, FilterView::Procs, FilterView::Outputs, FilterView::Pipelines, FilterView::BuildEdges] {
        assert!(v.kinds().contains(&v.default_kind()));
    }
}
