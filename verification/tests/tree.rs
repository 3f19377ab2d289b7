use sarun_ui::fmt::edge_running;
use sarun_ui::json::Json;
use sarun_ui::num::Real;
use sarun_ui::tree::{build_pipeline_tree, collapse_chains};

#[test]
fn collapse_chains_flattens_single_child_runs() {
    let depths = [0, 1, 1, 2, 3, 4, 5, 5];
    let got = collapse_chains(&depths);
    let want = [
        (0, false),
        (1, false),
        (1, true),
        (1, true),
        (1, true),
        (1, true),
        (2, false),
        (2, false),
    ];
    assert_eq!(got, want, "single-child chain collapse mismatch");
}

#[test]
fn collapse_chains_flattens_a_pure_spine() {
    let depths = [0, 1, 2, 3];
    let got = collapse_chains(&depths);
    assert!(
        got.iter().all(|&(d, c)| d == 0 && c),
        "a pure single-child spine should flatten to depth 0, all marked: {got:?}"
    );
}

fn row(id: i64, uid: i64, parent: i64, cmd: &str) -> Json {
    Json::obj()
        .with("id", Json::Int(id))
        .with("uid", Json::Int(uid))
        .with("parent_uid", Json::Int(parent))
        .with("cmd", Json::text(cmd))
}

#[test]
fn pipeline_tree_nests_by_parent_uid() {
    let rows = vec![
        row(1, 10, 0, "recipe"),
        row(2, 11, 10, "inner"),
        row(3, 12, 11, "echo deep"),
        row(4, 20, 0, "sibling"),
    ];
    let tree = build_pipeline_tree(rows);
    let at = |i: usize| (tree[i].get_str("cmd").unwrap(), tree[i].get_i64("depth").unwrap());
    assert_eq!(at(0), ("recipe", 0));
    assert_eq!(at(1), ("inner", 1));
    assert_eq!(at(2), ("echo deep", 2));
    assert_eq!(at(3), ("sibling", 0));
}

#[test]
fn edge_running_predicate_tracks_started_not_ended() {
    let real = |n: f64, t: &str| Json::Real(Real::of_float(n.to_bits()), t.to_string());
    assert!(edge_running(
        &Json::obj().with("started_ts", real(100.0, "100.0")).with("ended_ts", real(0.0, "0.0"))
    ));
    assert!(!edge_running(
        &Json::obj()
            .with("started_ts", real(100.0, "100.0"))
            .with("ended_ts", real(101.0, "101.0"))
    ));
    assert!(!edge_running(
        &Json::obj().with("outs", Json::Arr(vec![Json::text("all")])).with("cmd", Json::Null)
    ));
    assert!(!edge_running(
        &Json::obj().with("started_ts", real(0.0, "0.0")).with("ended_ts", real(0.0, "0.0"))
    ));
}

#[test]
fn pipeline_tree_legacy_rows_stay_flat() {
    let rows = vec![row(1, 0, 0, "a"), row(2, 0, 0, "b")];
    let tree = build_pipeline_tree(rows);
    assert_eq!(tree.len(), 2);
    assert!(tree.iter().all(|r| r.get_i64("depth") == Some(0)));
}

#[test]
fn pipeline_tree_keeps_every_row_of_a_ring() {
    let tree = build_pipeline_tree(vec![row(1, 1, 2, "a"), row(2, 2, 1, "b"), row(3, 3, 0, "c")]);
    let mut cmds: Vec<&str> = tree.iter().map(|r| r.get_str("cmd").unwrap()).collect();
    cmds.sort();
    assert_eq!(cmds, vec!["a", "b", "c"]);
}
