//! Taking in the rows of a window, and what the engine tells of them.

use vstd::prelude::*;

use crate::answers::{collect_leaf_paths, is_decoratable};
#[allow(unused_imports)]
use crate::answers::{decor_of, decor_v, leaf_paths, leaves_before, output_calls, output_text, segs_v};
use crate::app::{App, Diff, Lists, Shown, Then, Ui};
#[allow(unused_imports)]
use crate::app::StepV;
use crate::json::{copy_all, list2, Json};
#[allow(unused_imports)]
use crate::json::{jvs, JV};
use crate::lists::fit_usize;
#[allow(unused_imports)]
use crate::lists::{fit, rep_v, within};
use crate::outside::{base64_decode, utf8_lossy};
use crate::text::own;
use crate::types::{arr, FilterView, Win};

verus! {

/// Nothing is known of any of `n` rows.
pub open spec fn blank_decor(n: nat) -> Seq<(Seq<char>, bool)> {
    Seq::new(n, |i: int| (Seq::<char>::empty(), false))
}

fn blanks(n: usize) -> (r: Vec<(String, bool)>)
    ensures
        decor_v(r@) == blank_decor(n as nat),
{
    let mut out: Vec<(String, bool)> = Vec::new();
    let mut i: usize = 0;
    while i < n
        invariant
            i <= n,
            out@.len() == i,
            forall|k: int| 0 <= k < i ==> (#[trigger] out@[k]).0@ == Seq::<char>::empty() && !out@[k].1,
        decreases n - i,
    {
        out.push((String::new(), false));
        i += 1;
    }
    assert(decor_v(out@) =~= blank_decor(n as nat));
    out
}

/// The rows of a list in an answer, a copy.
fn rows_of(j: &Json) -> (r: Vec<Json>)
    ensures
        jvs(r@) == j@.items("rows"@),
{
    match j.get_arr("rows") {
        Some(v) => copy_all(v),
        None => {
            let r: Vec<Json> = Vec::new();
            assert(jvs(r@) =~= Seq::<JV>::empty());
            r
        },
    }
}

impl App {
    /// Where a window stands after an answer.
    pub open spec fn moved(self, v: FilterView, start: usize, j: JV) -> Win {
        Win {
            start: fit(j.u64_or("start"@, start as int)),
            total: fit(j.u64_or("total"@, self.win(v).total as int)),
            ..self.win(v)
        }
    }

    /// The step that asks for more of the changes of a window.
    pub open spec fn decorating(self, rows: Seq<JV>) -> Seq<StepV> {
        match self.sid() {
            Some(sid) => if leaf_paths(rows).len() > 0 {
                seq![
                    StepV::Call(
                        "review.decorate_many"@,
                        seq![JV::Str(sid), JV::Arr(leaf_paths(rows))],
                        Then::Decor,
                    ),
                ]
            } else {
                Seq::empty()
            },
            None => Seq::empty(),
        }
    }

    /// What the rows of a window of the changes change.
    pub open spec fn changes_window_v(self, start: usize, r: Result<JV, Seq<char>>, post: App) -> bool {
        match r {
            Ok(j) => {
                &&& jvs(post.lists.changes.rows@) == j.items("rows"@)
                &&& decor_v(post.diff.decor@) == blank_decor(j.items("rows"@).len())
                &&& post.plan() == self.decorating(j.items("rows"@)) + self.plan()
                &&& post == (App {
                    lists: (Lists {
                        changes: (Win {
                            rows: post.lists.changes.rows,
                            ..self.moved(FilterView::Changes, start, j)
                        }),
                        ..self.lists
                    }),
                    diff: (Diff { decor: post.diff.decor, ..self.diff }),
                    todo: post.todo,
                    ..self
                })
            },
            Err(e) => self.says(post, "view.window changes: "@ + e),
        }
    }

    /// Takes in a window of the changes.
    pub fn changes_window(&mut self, start: usize, r: Result<Json, String>)
        ensures
            old(self).changes_window_v(start, rep_v(r), *final(self)),
    {
        match r {
            Ok(j) => {
                let ghost orig = *self;
                let rows: Vec<Json> = rows_of(&j);
                let paths: Vec<Json> = collect_leaf_paths(&rows);
                let n: usize = rows.len();
                assert(n == jvs(rows@).len());
                let sid: Option<String> = match self.cur_sid() {
                    Some(s) => Some(own(s)),
                    None => None,
                };
                self.lists.changes.start = fit_usize(j.u64_or("start", start as u64));
                self.lists.changes.total = fit_usize(j.u64_or("total", self.lists.changes.total as u64));
                self.lists.changes.rows = rows;
                self.diff.decor = blanks(n);
                assert(paths@.len() == jvs(paths@).len());
                match sid {
                    Some(s) => {
                        if paths.len() > 0 {
                            self.first_call("review.decorate_many", list2(Json::Str(s), arr(paths)), Then::Decor);
                        }
                    },
                    None => {},
                }
                assert(self.plan() =~= orig.decorating(j@.items("rows"@)) + orig.plan());
            },
            Err(e) => {
                let s: String = own("view.window changes: ").concat(e.as_str());
                self.say(s.as_str());
            },
        }
    }

    /// What the rows of a window of the processes change.
    pub open spec fn procs_window_v(self, start: usize, r: Result<JV, Seq<char>>, post: App) -> bool {
        match r {
            Ok(j) => {
                &&& jvs(post.lists.processes.rows@) == j.items("rows"@)
                &&& post == self.with_win(
                    FilterView::Procs,
                    (Win { rows: post.lists.processes.rows, ..self.moved(FilterView::Procs, start, j) }),
                )
            },
            Err(e) => self.says(post, "view.window procs: "@ + e),
        }
    }

    /// Takes in a window of the processes.
    pub fn procs_window(&mut self, start: usize, r: Result<Json, String>)
        ensures
            old(self).procs_window_v(start, rep_v(r), *final(self)),
    {
        match r {
            Ok(j) => {
                self.lists.processes.start = fit_usize(j.u64_or("start", start as u64));
                self.lists.processes.total = fit_usize(j.u64_or("total", self.lists.processes.total as u64));
                self.lists.processes.rows = rows_of(&j);
            },
            Err(e) => {
                let s: String = own("view.window procs: ").concat(e.as_str());
                self.say(s.as_str());
            },
        }
    }

    /// What the rows of a window of the outputs change: the bytes of each are asked for.
    pub open spec fn outputs_window_v(self, start: usize, r: Result<JV, Seq<char>>, post: App) -> bool {
        match r {
            Ok(j) => {
                &&& jvs(post.lists.outputs.rows@) == j.items("rows"@)
                &&& post == (App {
                    lists: (Lists {
                        outputs: (Win {
                            rows: post.lists.outputs.rows,
                            ..self.moved(FilterView::Outputs, start, j)
                        }),
                        ..self.lists
                    }),
                    shown: (Shown { output_segs: post.shown.output_segs, ..self.shown }),
                    todo: post.todo,
                    ..self
                })
                &&& match self.sid() {
                    Some(sid) => post.shown.output_segs@.len() == 0 && post.plan() == output_calls(
                        sid,
                        j.items("rows"@),
                        0,
                    ) + self.plan(),
                    None => post.shown.output_segs == self.shown.output_segs && post.plan() == self.plan(),
                }
            },
            Err(e) => self.says(post, "view.window outputs: "@ + e),
        }
    }

    /// Takes in a window of the outputs.
    pub fn outputs_window(&mut self, start: usize, r: Result<Json, String>)
        ensures
            old(self).outputs_window_v(start, rep_v(r), *final(self)),
    {
        match r {
            Ok(j) => {
                let ghost orig = *self;
                let ghost items = j@.items("rows"@);
                let sid: Option<String> = match self.cur_sid() {
                    Some(s) => Some(own(s)),
                    None => None,
                };
                self.lists.outputs.start = fit_usize(j.u64_or("start", start as u64));
                self.lists.outputs.total = fit_usize(j.u64_or("total", self.lists.outputs.total as u64));
                let rows: Vec<Json> = rows_of(&j);
                match sid {
                    Some(s) => {
                        self.shown.output_segs = Vec::new();
                        self.ask_outputs(s.as_str(), &rows);
                    },
                    None => {},
                }
                self.lists.outputs.rows = rows;
            },
            Err(e) => {
                let s: String = own("view.window outputs: ").concat(e.as_str());
                self.say(s.as_str());
            },
        }
    }

    /// Puts the calls for the bytes of outputs before all other steps.
    fn ask_outputs(&mut self, sid: &str, rows: &Vec<Json>)
        ensures
            *final(self) == (App { todo: final(self).todo, ..*old(self) }),
            final(self).plan() == output_calls(sid@, jvs(rows@), 0) + old(self).plan(),
    {
        let ghost rv = jvs(rows@);
        let mut k: usize = rows.len();
        assert(output_calls(sid@, rv, k as int) + self.plan() =~= self.plan());
        while k > 0
            invariant
                k <= rows@.len(),
                rv == jvs(rows@),
                *self == (App { todo: self.todo, ..*old(self) }),
                self.plan() == output_calls(sid@, rv, k as int) + old(self).plan(),
            decreases k,
        {
            let i: usize = k - 1;
            assert(rv[i as int] == rows@[i as int]@);
            let oid: i64 = rows[i].i64_or("id", -1);
            let stream: i64 = rows[i].i64_or("stream", 0);
            let ghost before = self.plan();
            self.first_call("output_detail", list2(Json::text(sid), Json::Int(oid)), Then::Output(oid, stream));
            assert(self.plan() =~= output_calls(sid@, rv, i as int) + old(self).plan());
            k = i;
        }
    }

    /// The change that `output_detail` makes.
    pub open spec fn output_detail_v(self, oid: i64, stream: i64, r: Result<Json, String>, post: App) -> bool {
        &&& (segs_v(post.shown.output_segs@) == segs_v(self.shown.output_segs@).push(
                (oid, stream, output_text(rep_v(r))),
            ))
        &&& (post == (App {
                shown: (Shown { output_segs: post.shown.output_segs, ..self.shown }),
                ..self
            }))
    }

    /// Takes in the bytes of an output.
    pub fn output_detail(&mut self, oid: i64, stream: i64, r: Result<Json, String>)
        ensures
            old(self).output_detail_v(oid, stream, r, *final(self)),
    {
        let text: String = match r {
            Ok(d) => match d.get("content") {
                Some(c) => match c.get_str("__b") {
                    Some(b) => match base64_decode(b) {
                        Some(bytes) => utf8_lossy(&bytes),
                        None => String::new(),
                    },
                    None => String::new(),
                },
                None => String::new(),
            },
            Err(_) => String::new(),
        };
        self.shown.output_segs.push((oid, stream, text));
        assert(segs_v(self.shown.output_segs@) =~= segs_v(old(self).shown.output_segs@).push(
            (oid, stream, output_text(rep_v(r))),
        ));
    }

    /// What the rows of a window of the pipelines change.
    pub open spec fn pipelines_window_v(self, start: usize, r: Result<JV, Seq<char>>, post: App) -> bool {
        let w = match r {
            Ok(j) => self.moved(FilterView::Pipelines, start, j),
            Err(_) => self.lists.pipelines,
        };
        &&& match r {
            Ok(j) => jvs(post.shown.pipelines_flat@) == j.items("rows"@) && post.ui == self.ui,
            Err(e) => {
                &&& post.shown.pipelines_flat == self.shown.pipelines_flat
                &&& post.ui == (Ui { status: post.ui.status, ..self.ui })
                &&& post.ui.status@ == "view.window pipelines: "@ + e
            },
        }
        &&& jvs(post.lists.pipelines.rows@) == post.shown_pipelines()
        &&& post.lists.pipelines == (Win {
            rows: post.lists.pipelines.rows,
            sel: within(w.sel as int, post.shown_pipelines().len() as int) as usize,
            ..w
        })
        &&& post == (App {
            lists: (Lists { pipelines: post.lists.pipelines, ..self.lists }),
            shown: (Shown { pipelines_flat: post.shown.pipelines_flat, ..self.shown }),
            ui: post.ui,
            ..self
        })
    }

    /// Takes in a window of the pipelines.
    pub fn pipelines_window(&mut self, start: usize, r: Result<Json, String>)
        ensures
            old(self).pipelines_window_v(start, rep_v(r), *final(self)),
    {
        match r {
            Ok(j) => {
                self.lists.pipelines.start = fit_usize(j.u64_or("start", start as u64));
                self.lists.pipelines.total = fit_usize(j.u64_or("total", self.lists.pipelines.total as u64));
                self.shown.pipelines_flat = rows_of(&j);
            },
            Err(e) => {
                let s: String = own("view.window pipelines: ").concat(e.as_str());
                self.say(s.as_str());
            },
        }
        let ghost mid = *self;
        self.rebuild_pipeline_view();
        assert(self.shown_pipelines() == mid.shown_pipelines());
    }

    /// What the rows of a window of the build edges change.
    pub open spec fn edges_window_v(self, start: usize, r: Result<JV, Seq<char>>, post: App) -> bool {
        let w = match r {
            Ok(j) => self.moved(FilterView::BuildEdges, start, j),
            Err(_) => self.lists.edges,
        };
        &&& match r {
            Ok(j) => jvs(post.shown.edges_flat@) == j.items("rows"@) && post.ui == self.ui,
            Err(e) => {
                &&& post.shown.edges_flat == self.shown.edges_flat
                &&& post.ui == (Ui { status: post.ui.status, ..self.ui })
                &&& post.ui.status@ == "view.window build_edges: "@ + e
            },
        }
        &&& jvs(post.lists.edges.rows@) == post.shown_edges()
        &&& post.lists.edges == (Win {
            rows: post.lists.edges.rows,
            sel: within(w.sel as int, post.shown_edges().len() as int) as usize,
            ..w
        })
        &&& post == (App {
            lists: (Lists { edges: post.lists.edges, ..self.lists }),
            shown: (Shown { edges_flat: post.shown.edges_flat, ..self.shown }),
            ui: post.ui,
            ..self
        })
    }

    /// Takes in a window of the build edges.
    pub fn edges_window(&mut self, start: usize, r: Result<Json, String>)
        ensures
            old(self).edges_window_v(start, rep_v(r), *final(self)),
    {
        match r {
            Ok(j) => {
                self.lists.edges.start = fit_usize(j.u64_or("start", start as u64));
                self.lists.edges.total = fit_usize(j.u64_or("total", self.lists.edges.total as u64));
                self.shown.edges_flat = rows_of(&j);
            },
            Err(e) => {
                let s: String = own("view.window build_edges: ").concat(e.as_str());
                self.say(s.as_str());
            },
        }
        let ghost mid = *self;
        self.rebuild_edge_view();
        assert(self.shown_edges() == mid.shown_edges());
    }

    /// What the engine tells of the changes of a window.
    pub open spec fn decor_reply_v(self, r: Result<JV, Seq<char>>, post: App) -> bool {
        let rows = jvs(self.lists.changes.rows@);
        &&& post == (App { diff: (Diff { decor: post.diff.decor, ..self.diff }), ..self })
        &&& match r {
            Ok(j) => {
                let decs = match j.arr() {
                    Some(v) => v,
                    None => Seq::empty(),
                };
                &&& post.diff.decor@.len() == self.diff.decor@.len()
                &&& forall|i: int|
                    0 <= i < post.diff.decor@.len() && i < rows.len() ==> #[trigger] decor_v(post.diff.decor@)[i]
                        == decor_of(rows, decs, i, decor_v(self.diff.decor@)[i])
                &&& forall|i: int|
                    rows.len() <= i < post.diff.decor@.len() ==> #[trigger] decor_v(post.diff.decor@)[i] == decor_v(
                        self.diff.decor@,
                    )[i]
            },
            Err(_) => post == self,
        }
    }

    /// Takes in what the engine tells of the changes of a window.
    pub fn decor_reply(&mut self, r: Result<Json, String>)
        ensures
            old(self).decor_reply_v(rep_v(r), *final(self)),
    {
        match r {
            Ok(j) => {
                let none: Vec<Json> = Vec::new();
                let decs: &Vec<Json> = match j.as_arr() {
                    Some(v) => v,
                    None => &none,
                };
                let ghost dv = match j@.arr() {
                    Some(v) => v,
                    None => Seq::empty(),
                };
                assert(jvs(decs@) =~= dv);
                let ghost rows = jvs(self.lists.changes.rows@);
                let ghost first = decor_v(self.diff.decor@);
                let n: usize = if self.lists.changes.rows.len() <= self.diff.decor.len() {
                    self.lists.changes.rows.len()
                } else {
                    self.diff.decor.len()
                };
                let mut i: usize = 0;
                let mut di: usize = 0;
                while i < n
                    invariant
                        i <= n <= self.diff.decor@.len(),
                        n <= self.lists.changes.rows@.len(),
                        rows == jvs(self.lists.changes.rows@),
                        jvs(decs@) == dv,
                        di as int == leaves_before(rows, i as int) <= i,
                        *self == (App { diff: (Diff { decor: self.diff.decor, ..old(self).diff }), ..*old(self) }),
                        self.diff.decor@.len() == first.len(),
                        forall|k: int|
                            0 <= k < i ==> #[trigger] decor_v(self.diff.decor@)[k] == decor_of(rows, dv, k, first[k]),
                        forall|k: int| i <= k < first.len() ==> #[trigger] decor_v(self.diff.decor@)[k] == first[k],
                    decreases n - i,
                {
                    assert(rows[i as int] == self.lists.changes.rows@[i as int]@);
                    if is_decoratable(&self.lists.changes.rows[i]) {
                        if di < decs.len() {
                            assert(dv[di as int] == decs@[di as int]@);
                            let kind: String = own(decs[di].str_or("kind", "changed"));
                            let stale: bool = decs[di].flag("stale");
                            let ghost before = self.diff.decor@;
                            self.diff.decor.set(i, (kind, stale));
                            assert forall|k: int| 0 <= k < first.len() && k != i implies #[trigger] decor_v(
                                self.diff.decor@,
                            )[k] == decor_v(before)[k] by {
                                assert(self.diff.decor@[k] == before[k]);
                            }
                        } else {
                            assert(decor_v(self.diff.decor@)[i as int] == first[i as int]);
                        }
                        di += 1;
                    } else {
                        assert(decor_v(self.diff.decor@)[i as int] == first[i as int]);
                    }
                    i += 1;
                }
            },
            Err(_) => {},
        }
    }
}

} // verus!
