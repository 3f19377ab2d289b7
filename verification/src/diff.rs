//! The change at the cursor: its header, its diff, and what is done with single hunks.

use vstd::prelude::*;

use crate::app::{App, Diff, Op, Step, Then, Ui};
#[allow(unused_imports)]
use crate::app::StepV;
#[allow(unused_imports)]
use crate::answers::cancelled;
use crate::fmt::{filemode, fmt_bytes, hexdump_into, octal};
#[allow(unused_imports)]
use crate::fmt::{bytes_text, hexdump, mode_text, oct};
use crate::json::{list2, list3, Json};
#[allow(unused_imports)]
use crate::json::{jvs, JV};
use crate::lists::{fit_usize, position_str};
#[allow(unused_imports)]
use crate::lists::{find_str, fit, rep_v};
use crate::outside::base64_decode;
#[allow(unused_imports)]
use crate::outside::base64_bytes;
use crate::text::{decimal_signed, own};
#[allow(unused_imports)]
use crate::text::{sdec, strs};
use crate::types::{FilterView, StructState, Win};
#[allow(unused_imports)]
use crate::types::tagged;

verus! {

/// The style and the text of a line as the engine sends it.
pub open spec fn pair_of(p: JV) -> (Seq<char>, Seq<char>) {
    match p.arr() {
        Some(a) => (
            if a.len() > 0 && a[0].str() is Some { a[0].str()->0 } else { Seq::empty() },
            if a.len() > 1 && a[1].str() is Some { a[1].str()->0 } else { Seq::empty() },
        ),
        None => (Seq::empty(), Seq::empty()),
    }
}

/// The lines of a list of lines.
pub open spec fn pairs_v(v: Option<JV>) -> Seq<(Seq<char>, Seq<char>)> {
    match v {
        Some(j) => match j.arr() {
            Some(a) => a.map_values(|p: JV| pair_of(p)),
            None => Seq::empty(),
        },
        None => Seq::empty(),
    }
}

fn one_pair(p: &Json) -> (r: (String, String))
    ensures
        (r.0@, r.1@) == pair_of(p@),
{
    match p.as_arr() {
        Some(a) => {
            assert(a@.len() == jvs(a@).len());
            let style: String = if a.len() > 0 {
                assert(jvs(a@)[0] == a@[0]@);
                match a[0].as_str() {
                    Some(s) => own(s),
                    None => String::new(),
                }
            } else {
                String::new()
            };
            let text: String = if a.len() > 1 {
                assert(jvs(a@)[1] == a@[1]@);
                match a[1].as_str() {
                    Some(s) => own(s),
                    None => String::new(),
                }
            } else {
                String::new()
            };
            (style, text)
        },
        None => (String::new(), String::new()),
    }
}

/// The lines of an answer.
pub fn pairs_of(v: Option<&Json>) -> (r: Vec<(String, String)>)
    ensures
        tagged(r@) == pairs_v(
            match v {
                Some(j) => Some(j@),
                None => None,
            },
        ),
{
    let mut out: Vec<(String, String)> = Vec::new();
    match v {
        Some(j) => match j.as_arr() {
            Some(a) => {
                let mut i: usize = 0;
                while i < a.len()
                    invariant
                        i <= a@.len(),
                        out@.len() == i,
                        forall|k: int|
                            0 <= k < i ==> ((#[trigger] out@[k]).0@, out@[k].1@) == pair_of(a@[k]@),
                    decreases a@.len() - i,
                {
                    out.push(one_pair(&a[i]));
                    i += 1;
                }
                assert(tagged(out@) =~= jvs(a@).map_values(|p: JV| pair_of(p)));
                out
            },
            None => {
                assert(tagged(out@) =~= Seq::empty());
                out
            },
        },
        None => {
            assert(tagged(out@) =~= Seq::empty());
            out
        },
    }
}

/// The numbers of the hunks of a diff.
pub open spec fn hunk_numbers(hunks: Seq<JV>) -> Seq<int>
    decreases hunks.len(),
{
    if hunks.len() == 0 {
        Seq::empty()
    } else {
        match hunks.last().get_i64("index"@) {
            Some(n) => hunk_numbers(hunks.drop_last()).push(n),
            None => hunk_numbers(hunks.drop_last()),
        }
    }
}

/// Numbers as they are.
pub open spec fn ints(v: Seq<i64>) -> Seq<int> {
    v.map_values(|n: i64| n as int)
}

/// What the header says of a change besides its path.
pub open spec fn meta_text(kind: Seq<char>, size: Option<int>, mode: Option<int>) -> Seq<char> {
    kind + (match size {
        Some(sz) => " · "@ + bytes_text(sz),
        None => Seq::empty(),
    }) + (match mode {
        Some(m) => " · "@ + mode_text(m as i64 as u32) + " "@ + oct((m as i64 & 0o7777) as int),
        None => Seq::empty(),
    })
}

/// The lines of the header of a change.
pub open spec fn header_lines(
    rel: Seq<char>,
    kind: Seq<char>,
    stale: bool,
    size: Option<int>,
    mode: Option<int>,
) -> Seq<(Seq<char>, Seq<char>)> {
    let base = seq![("bold"@, "/"@ + rel), ("dim"@, meta_text(kind, size, mode))];
    if stale { base.push(("stale"@, "⚠ host changed since capture"@)) } else { base }
}

/// The bytes of a base64 text; none where there is no such text.
pub open spec fn decoded(v: Option<JV>) -> Seq<u8> {
    match v {
        Some(j) => match j.str() {
            Some(s) => match base64_bytes(s) {
                Some(b) => b,
                None => Seq::empty(),
            },
            None => Seq::empty(),
        },
        None => Seq::empty(),
    }
}

/// A length as a signed number.
pub open spec fn signed(n: int) -> int {
    if n <= i64::MAX { n } else { i64::MAX as int }
}

/// The lines that a binary change is shown as where the engine knows no more of it: a hex dump of
/// the bytes, of those before it as well where it has any.
pub open spec fn fallback_lines(hunks: JV) -> Seq<Seq<char>> {
    let diff = match hunks.get("diff"@) {
        Some(d) => d,
        None => JV::Null,
    };
    let after = decoded(diff.get("content"@));
    match diff.get("content_before"@) {
        Some(b) => {
            let before = decoded(Some(b));
            seq!["── before ── binary · "@ + bytes_text(signed(before.len() as int))] + hexdump(before)
                + seq!["── after ──  binary · "@ + bytes_text(signed(after.len() as int))] + hexdump(after)
        },
        None => seq!["binary · "@ + bytes_text(signed(after.len() as int))] + hexdump(after),
    }
}

fn decode(v: Option<&Json>) -> (r: Vec<u8>)
    ensures
        r@ == decoded(
            match v {
                Some(j) => Some(j@),
                None => None,
            },
        ),
{
    match v {
        Some(j) => match j.as_str() {
            Some(s) => match base64_decode(s) {
                Some(b) => b,
                None => {
                    let e: Vec<u8> = Vec::new();
                    assert(e@ =~= Seq::<u8>::empty());
                    e
                },
            },
            None => Vec::new(),
        },
        None => Vec::new(),
    }
}

pub(crate) fn size_text(n: usize) -> (r: String)
    ensures
        r@ == bytes_text(signed(n as int)),
{
    let m: i64 = if n as u64 <= 9223372036854775807 { n as i64 } else { i64::MAX };
    fmt_bytes(m)
}

impl App {
    /// The numbers of the hunks of the diff.
    pub open spec fn hunk_list(self) -> Seq<int> {
        hunk_numbers(self.diff.hunks@.items("hunks"@))
    }

    pub fn hunk_indices(&self) -> (r: Vec<i64>)
        ensures
            ints(r@) == self.hunk_list(),
    {
        let mut out: Vec<i64> = Vec::new();
        assert(ints(out@) =~= Seq::<int>::empty());
        match self.diff.hunks.get_arr("hunks") {
            Some(v) => {
                let ghost hv = jvs(v@);
                let mut i: usize = 0;
                assert(hv.take(0).len() == 0);
                while i < v.len()
                    invariant
                        i <= v@.len(),
                        hv == jvs(v@),
                        ints(out@) == hunk_numbers(hv.take(i as int)),
                    decreases v@.len() - i,
                {
                    assert(hv.take(i + 1).drop_last() == hv.take(i as int));
                    assert(hv.take(i + 1).last() == v@[i as int]@);
                    match v[i].get_i64("index") {
                        Some(n) => {
                            let ghost before = ints(out@);
                            out.push(n);
                            assert(ints(out@) =~= before.push(n as int));
                        },
                        None => {},
                    }
                    i += 1;
                }
                assert(hv.take(v@.len() as int) == hv);
                out
            },
            None => out,
        }
    }

    /// The number of the hunk at the cursor.
    pub open spec fn cur_hunk(self) -> Option<int> {
        if self.diff.sel_hunk < self.hunk_list().len() {
            Some(self.hunk_list()[self.diff.sel_hunk as int])
        } else {
            None
        }
    }

    pub fn cur_hunk_index(&self) -> (r: Option<i64>)
        ensures
            match r {
                Some(n) => self.cur_hunk() == Some(n as int),
                None => self.cur_hunk() is None,
            },
    {
        let v: Vec<i64> = self.hunk_indices();
        assert(v@.len() == ints(v@).len());
        if self.diff.sel_hunk < v.len() {
            assert(ints(v@)[self.diff.sel_hunk as int] == v@[self.diff.sel_hunk as int] as int);
            Some(v[self.diff.sel_hunk])
        } else {
            None
        }
    }

    /// The calls that tell what the header of the change at the cursor says.
    pub open spec fn header_calls(self, sid: Seq<char>, rel: Seq<char>, full: bool) -> Seq<StepV> {
        seq![
            StepV::Call("review.decorate"@, seq![JV::Str(sid), JV::Str(rel)], Then::HeaderKind),
            StepV::Call("review.change_mode"@, seq![JV::Str(sid), JV::Str(rel)], Then::HeaderMode(full)),
        ]
    }

    fn first_header(&mut self, sid: &str, rel: &str, full: bool)
        ensures
            *final(self) == (App { todo: final(self).todo, ..*old(self) }),
            final(self).plan() == old(self).header_calls(sid@, rel@, full) + old(self).plan(),
    {
        self.first_call("review.change_mode", list2(Json::text(sid), Json::text(rel)), Then::HeaderMode(full));
        self.first_call("review.decorate", list2(Json::text(sid), Json::text(rel)), Then::HeaderKind);
        assert(self.plan() =~= old(self).header_calls(sid@, rel@, full) + old(self).plan());
    }

    /// What loading the diff of the change at the cursor changes.
    pub open spec fn load_hunks_v(self, post: App) -> bool {
        &&& cancelled(self.diff.structd, post.diff.structd)
        &&& post == (App {
            diff: (Diff {
                hunks: Json::Null,
                hunk_scroll: 0,
                sel_hunk: 0,
                cd_info: None,
                structd: post.diff.structd,
                waiting: false,
                ..self.diff
            }),
            todo: post.todo,
            ..self
        })
        &&& post.plan() == self.cancelling() + (match (self.sid(), self.change_path()) {
            (Some(sid), Some(path)) => self.header_calls(sid, path, false) + seq![
                StepV::Call("review.hunks"@, seq![JV::Str(sid), JV::Str(path)], Then::Hunks),
            ],
            _ => Seq::empty(),
        }) + self.plan()
    }

    /// Loads the diff of the change at the cursor.
    pub fn load_hunks(&mut self)
        ensures
            old(self).load_hunks_v(*final(self)),
    {
        let ghost orig = *self;
        let sid: Option<String> = match self.cur_sid() {
            Some(s) => Some(own(s)),
            None => None,
        };
        let path: Option<String> = match self.cur_change_path() {
            Some(s) => Some(own(s)),
            None => None,
        };
        match (sid, path) {
            (Some(s), Some(p)) => {
                self.first_call("review.hunks", list2(Json::text(s.as_str()), Json::text(p.as_str())), Then::Hunks);
                self.first_header(s.as_str(), p.as_str(), false);
            },
            _ => {},
        }
        self.cancel_struct();
        assert(self.plan() =~= orig.cancelling() + (match (orig.sid(), orig.change_path()) {
            (Some(sid), Some(path)) => orig.header_calls(sid, path, false) + seq![
                StepV::Call("review.hunks"@, seq![JV::Str(sid), JV::Str(path)], Then::Hunks),
            ],
            _ => Seq::empty(),
        }) + orig.plan());
        self.diff.hunks = Json::Null;
        self.diff.hunk_scroll = 0;
        self.diff.sel_hunk = 0;
        self.diff.cd_info = None;
    }

    /// The kind that the row of the change at the cursor tells.
    pub open spec fn row_kind(self) -> Seq<char> {
        let w = self.lists.changes;
        if w.sel < w.rows@.len() { w.rows@[w.sel as int]@.str_or("kind"@, "changed"@) } else { "changed"@ }
    }

    /// The size that the row of the change at the cursor tells.
    pub open spec fn row_size(self) -> Option<int> {
        let w = self.lists.changes;
        if w.sel < w.rows@.len() { w.rows@[w.sel as int]@.get_i64("size"@) } else { None }
    }

    /// The change that `header_kind` makes.
    pub open spec fn header_kind_v(self, r: Result<Json, String>, post: App) -> bool {
        &&& (post == (App { diff: (Diff { head: post.diff.head, ..self.diff }), ..self }))
        &&& (post.diff.head.0@ == (match rep_v(r) {
                Ok(j) => j.str_or("kind"@, self.row_kind()),
                Err(_) => self.row_kind(),
            }))
        &&& (post.diff.head.1 == (match rep_v(r) {
                Ok(j) => j.flag("stale"@),
                Err(_) => false,
            }))
    }

    /// Takes in what the engine tells of the kind of a change.
    pub fn header_kind(&mut self, r: Result<Json, String>)
        ensures
            old(self).header_kind_v(r, *final(self)),
    {
        let sel: usize = self.lists.changes.sel;
        let row: String = if sel < self.lists.changes.rows.len() {
            own(self.lists.changes.rows[sel].str_or("kind", "changed"))
        } else {
            own("changed")
        };
        match r {
            Ok(j) => {
                let kind: String = own(j.str_or("kind", row.as_str()));
                let stale: bool = j.flag("stale");
                self.diff.head = (kind, stale);
            },
            Err(_) => {
                self.diff.head = (row, false);
            },
        }
    }

    /// The lines of the header of the change at the cursor.
    pub open spec fn header_v(self, r: Result<JV, Seq<char>>) -> Seq<(Seq<char>, Seq<char>)> {
        header_lines(
            match self.change_path() {
                Some(p) => p,
                None => Seq::empty(),
            },
            self.diff.head.0@,
            self.diff.head.1,
            self.row_size(),
            match r {
                Ok(j) => j.i64(),
                Err(_) => None,
            },
        )
    }

    /// The change that `header_mode` makes.
    pub open spec fn header_mode_v(self, full: bool, r: Result<Json, String>, post: App) -> bool {
        &&& (full ==> {
                &&& tagged(post.diff.structd.header@) == self.header_v(rep_v(r))
                &&& post == (App {
                    diff: (Diff {
                        structd: (StructState {
                            header: post.diff.structd.header,
                            ..self.diff.structd
                        }),
                        ..self.diff
                    }),
                    ..self
                })
            })
        &&& (!full ==> {
                &&& post.diff.cd_info matches Some(v) && tagged(v@) == self.header_v(rep_v(r))
                &&& post == (App {
                    diff: (Diff { cd_info: post.diff.cd_info, ..self.diff }),
                    ..self
                })
            })
    }

    /// Takes in the mode of a change; its header is then complete.
    pub fn header_mode(&mut self, full: bool, r: Result<Json, String>)
        ensures
            old(self).header_mode_v(full, r, *final(self)),
    {
        let sel: usize = self.lists.changes.sel;
        let size: Option<i64> = if sel < self.lists.changes.rows.len() {
            self.lists.changes.rows[sel].get_i64("size")
        } else {
            None
        };
        let rel: String = match self.cur_change_path() {
            Some(p) => own(p),
            None => String::new(),
        };
        let mode: Option<i64> = match r {
            Ok(j) => j.as_i64(),
            Err(_) => None,
        };
        let mut meta: String = self.diff.head.0.clone();
        let ghost kind = meta@;
        let ghost size_part = match size {
            Some(sz) => " · "@ + bytes_text(sz as int),
            None => Seq::empty(),
        };
        match size {
            Some(sz) => {
                let t: String = own(" · ").concat(fmt_bytes(sz).as_str());
                meta.append(t.as_str());
            },
            None => {},
        }
        assert(meta@ =~= kind + size_part);
        match mode {
            Some(m) => {
                let low: i64 = m & 0o7777;
                assert(0 <= m & 0o7777) by (bit_vector);
                let t: String = own(" · ").concat(filemode(m).as_str()).concat(" ").concat(octal(low as u64).as_str());
                meta.append(t.as_str());
            },
            None => {},
        }
        let ghost want = meta_text(
            kind,
            self.row_size(),
            match mode {
                Some(m) => Some(m as int),
                None => None,
            },
        );
        assert(meta@ =~= want);
        let mut out: Vec<(String, String)> = Vec::new();
        out.push((own("bold"), own("/").concat(rel.as_str())));
        out.push((own("dim"), meta));
        if self.diff.head.1 {
            out.push((own("stale"), own("⚠ host changed since capture")));
        }
        assert(tagged(out@) =~= self.header_v(rep_v(r)));
        if full {
            self.diff.structd.header = out;
        } else {
            self.diff.cd_info = Some(out);
        }
    }

    /// What the diff of a change, or that there is none, changes: a change that is not text is
    /// looked at by its structure.
    pub open spec fn hunks_reply_v(self, r: Result<JV, Seq<char>>, post: App) -> bool {
        let text = match r {
            Ok(j) => j.flag("is_text"@),
            Err(_) => self.diff.hunks@.flag("is_text"@),
        };
        &&& match r {
            Ok(j) => post.diff.hunks@ == j && post.ui == self.ui,
            Err(e) => {
                &&& post.diff.hunks == self.diff.hunks
                &&& post.ui == (Ui { status: post.ui.status, ..self.ui })
                &&& post.ui.status@ == "hunks: "@ + e
            },
        }
        &&& post == (App {
            diff: (Diff { hunks: post.diff.hunks, ..self.diff }),
            ui: post.ui,
            todo: post.todo,
            ..self
        })
        &&& post.plan() == (if text {
            Seq::empty()
        } else {
            match (self.sid(), self.change_path()) {
                (Some(sid), Some(path)) => self.header_calls(sid, path, true) + seq![
                    StepV::Call("struct_quick"@, seq![JV::Str(sid), JV::Str(path)], Then::StructQuick),
                ],
                _ => Seq::empty(),
            }
        }) + self.plan()
    }

    /// Takes in the diff of a change.
    pub fn hunks_reply(&mut self, r: Result<Json, String>)
        ensures
            old(self).hunks_reply_v(rep_v(r), *final(self)),
    {
        let ghost orig = *self;
        match r {
            Ok(j) => {
                self.diff.hunks = j;
            },
            Err(e) => {
                let s: String = own("hunks: ").concat(e.as_str());
                self.say(s.as_str());
            },
        }
        if !self.diff.hunks.flag("is_text") {
            self.begin_struct();
        }
        assert(Seq::<StepV>::empty() + orig.plan() =~= orig.plan());
    }

    /// Asks for the structure of the change at the cursor.
    pub fn begin_struct(&mut self)
        ensures
            *final(self) == (App { todo: final(self).todo, ..*old(self) }),
            final(self).plan() == (match (old(self).sid(), old(self).change_path()) {
                (Some(sid), Some(path)) => old(self).header_calls(sid, path, true) + seq![
                    StepV::Call("struct_quick"@, seq![JV::Str(sid), JV::Str(path)], Then::StructQuick),
                ],
                _ => Seq::empty(),
            }) + old(self).plan(),
    {
        let ghost orig = *self;
        let sid: Option<String> = match self.cur_sid() {
            Some(s) => Some(own(s)),
            None => None,
        };
        let path: Option<String> = match self.cur_change_path() {
            Some(s) => Some(own(s)),
            None => None,
        };
        match (sid, path) {
            (Some(s), Some(p)) => {
                self.first_call(
                    "struct_quick",
                    list2(Json::text(s.as_str()), Json::text(p.as_str())),
                    Then::StructQuick,
                );
                self.first_header(s.as_str(), p.as_str(), true);
                assert(self.plan() =~= orig.header_calls(s@, p@, true) + seq![
                    StepV::Call("struct_quick"@, seq![JV::Str(s@), JV::Str(p@)], Then::StructQuick),
                ] + orig.plan());
            },
            _ => {
                assert(self.plan() =~= Seq::<StepV>::empty() + orig.plan());
            },
        }
    }

    /// The lines that are shown at once of a structural diff, and the engine's number for the
    /// rest of it.
    pub open spec fn quick_lines_v(r: Result<JV, Seq<char>>) -> Seq<(Seq<char>, Seq<char>)> {
        match r {
            Ok(j) => pairs_v(j.get("lines"@)),
            Err(e) => seq![("err"@, e)],
        }
    }

    /// What the beginning of a structural diff changes.
    pub open spec fn struct_quick_v(self, r: Result<JV, Seq<char>>, post: App) -> bool {
        let job = match r {
            Ok(j) => j.get_i64("job"@),
            Err(_) => None,
        };
        &&& tagged(post.diff.structd.quick_lines@) == App::quick_lines_v(r)
        &&& match job {
            Some(n) => {
                &&& post == (App {
                    diff: (Diff {
                        structd: (StructState {
                            quick_lines: post.diff.structd.quick_lines,
                            job: Some(n as i64),
                            pending: true,
                            full_lines: None,
                            ..self.diff.structd
                        }),
                        waiting: true,
                        ..self.diff
                    }),
                    todo: post.todo,
                    ..self
                })
                &&& post.plan() == seq![StepV::FinishStruct(n as i64, self.diff.structd.generation)] + self.plan()
            },
            None => {
                &&& strs(post.diff.structd.hex_lines@) == (match (self.sid(), self.change_path()) {
                    (Some(_), Some(_)) => fallback_lines(self.diff.hunks@),
                    _ => Seq::empty(),
                })
                &&& post == (App {
                    diff: (Diff {
                        structd: (StructState {
                            quick_lines: post.diff.structd.quick_lines,
                            hex_lines: post.diff.structd.hex_lines,
                            ..self.diff.structd
                        }),
                        ..self.diff
                    }),
                    ..self
                })
            },
        }
    }

    /// Takes in the beginning of a structural diff.
    pub fn struct_quick(&mut self, r: Result<Json, String>)
        ensures
            old(self).struct_quick_v(rep_v(r), *final(self)),
    {
        let (lines, job): (Vec<(String, String)>, Option<i64>) = match &r {
            Ok(j) => (pairs_of(j.get("lines")), j.get_i64("job")),
            Err(e) => {
                let v: Vec<(String, String)> = vec![(own("err"), e.clone())];
                assert(tagged(v@) =~= seq![("err"@, e@)]);
                (v, None)
            },
        };
        match job {
            Some(n) => {
                let generation: u64 = self.diff.structd.generation;
                self.diff.structd.quick_lines = lines;
                self.diff.structd.job = Some(n);
                self.diff.structd.pending = true;
                self.diff.structd.full_lines = None;
                self.diff.waiting = true;
                self.first(Step::FinishStruct(n, generation));
            },
            None => {
                let hex: Vec<String> = self.hexdump_fallback();
                self.diff.structd.quick_lines = lines;
                self.diff.structd.hex_lines = hex;
            },
        }
    }

    /// The lines of a binary change of which the engine knows no more.
    pub fn hexdump_fallback(&self) -> (r: Vec<String>)
        ensures
            strs(r@) == (match (self.sid(), self.change_path()) {
                (Some(_), Some(_)) => fallback_lines(self.diff.hunks@),
                _ => Seq::empty(),
            }),
    {
        let mut out: Vec<String> = Vec::new();
        assert(strs(out@) =~= Seq::<Seq<char>>::empty());
        if self.cur_sid().is_none() || self.cur_change_path().is_none() {
            return out;
        }
        let null: Json = Json::Null;
        let diff: &Json = match self.diff.hunks.get("diff") {
            Some(d) => d,
            None => &null,
        };
        let after: Vec<u8> = decode(diff.get("content"));
        match diff.get("content_before") {
            Some(b) => {
                let before: Vec<u8> = decode(Some(b));
                out.push(own("── before ── binary · ").concat(size_text(before.len()).as_str()));
                assert(strs(out@) =~= seq!["── before ── binary · "@ + bytes_text(signed(before@.len() as int))]);
                hexdump_into(&before, &mut out);
                let ghost mid = strs(out@);
                out.push(own("── after ──  binary · ").concat(size_text(after.len()).as_str()));
                assert(strs(out@) =~= mid + seq!["── after ──  binary · "@ + bytes_text(signed(after@.len() as int))]);
            },
            None => {
                out.push(own("binary · ").concat(size_text(after.len()).as_str()));
                assert(strs(out@) =~= seq!["binary · "@ + bytes_text(signed(after@.len() as int))]);
            },
        }
        hexdump_into(&after, &mut out);
        assert(strs(out@) =~= fallback_lines(self.diff.hunks@));
        out
    }

    /// The rest of the structural diff of that change is being waited for.
    pub open spec fn awaits(self, generation: u64) -> bool {
        self.diff.waiting && generation == self.diff.structd.generation
    }

    /// What the rest of a structural diff changes; one of an earlier change is dropped.
    pub open spec fn struct_done_v(self, generation: u64, r: Result<JV, Seq<char>>, post: App) -> bool {
        if self.awaits(generation) {
            &&& post.diff.structd.full_lines matches Some(v) && tagged(v@) == App::quick_lines_v(r)
            &&& post == (App {
                diff: (Diff {
                    structd: (StructState {
                        full_lines: post.diff.structd.full_lines,
                        pending: false,
                        job: None,
                        ..self.diff.structd
                    }),
                    waiting: false,
                    ..self.diff
                }),
                ..self
            })
        } else {
            post == self
        }
    }

    /// Takes in the rest of a structural diff. One that was made for a change that is no longer
    /// looked at is dropped.
    pub fn struct_done(&mut self, generation: u64, r: Result<Json, String>) -> (shown: bool)
        ensures
            shown == old(self).awaits(generation),
            old(self).struct_done_v(generation, rep_v(r), *final(self)),
    {
        if !(self.diff.waiting && generation == self.diff.structd.generation) {
            return false;
        }
        let lines: Vec<(String, String)> = match &r {
            Ok(j) => pairs_of(j.get("lines")),
            Err(e) => {
                let v: Vec<(String, String)> = vec![(own("err"), e.clone())];
                assert(tagged(v@) =~= seq![("err"@, e@)]);
                v
            },
        };
        self.diff.structd.full_lines = Some(lines);
        self.diff.structd.pending = false;
        self.diff.structd.job = None;
        self.diff.waiting = false;
        true
    }

    /// The rest of a structural diff will not come.
    pub fn struct_lost(&mut self, generation: u64)
        ensures
            *final(self) == (if old(self).diff.waiting && generation == old(self).diff.structd.generation {
                App {
                    diff: (Diff {
                        structd: (StructState { pending: false, ..old(self).diff.structd }),
                        waiting: false,
                        ..old(self).diff
                    }),
                    ..*old(self)
                }
            } else {
                *old(self)
            }),
    {
        if self.diff.waiting && generation == self.diff.structd.generation {
            self.diff.structd.pending = false;
            self.diff.waiting = false;
        }
    }

    /// The call that applies or discards the hunk at the cursor.
    pub open spec fn hunk_call(self, discard: bool) -> Option<StepV> {
        match (self.sid(), self.change_path(), self.cur_hunk()) {
            (Some(sid), Some(rel), Some(ix)) => Some(
                StepV::Call(
                    if discard { "review.discard_hunk"@ } else { "review.apply_hunk"@ },
                    seq![JV::Str(sid), JV::Str(rel), JV::Int(ix)],
                    Then::Hunk(ix as i64, discard),
                ),
            ),
            _ => None,
        }
    }

    /// What applying or discarding the hunk at the cursor changes.
    pub open spec fn take_hunk_v(self, discard: bool, post: App) -> bool {
        match self.hunk_call(discard) {
            Some(step) => {
                &&& post == (App { todo: post.todo, ..self })
                &&& post.plan() == seq![step] + self.plan()
            },
            None => self.says(post, "no hunk under cursor"@),
        }
    }

    /// Applies or discards the hunk at the cursor.
    pub fn take_hunk(&mut self, discard: bool)
        ensures
            old(self).take_hunk_v(discard, *final(self)),
    {
        let sid: Option<String> = match self.cur_sid() {
            Some(s) => Some(own(s)),
            None => None,
        };
        let path: Option<String> = match self.cur_change_path() {
            Some(s) => Some(own(s)),
            None => None,
        };
        let ix: Option<i64> = self.cur_hunk_index();
        match (sid, path, ix) {
            (Some(s), Some(p), Some(n)) => {
                let verb: &'static str = if discard { "review.discard_hunk" } else { "review.apply_hunk" };
                self.first_call(verb, list3(Json::Str(s), Json::Str(p), Json::Int(n)), Then::Hunk(n, discard));
            },
            _ => {
                self.say("no hunk under cursor");
            },
        }
    }

    pub fn apply_hunk(&mut self)
        ensures
            old(self).take_hunk_v(false, *final(self)),
    {
        self.take_hunk(false);
    }

    pub fn discard_hunk(&mut self)
        ensures
            old(self).take_hunk_v(true, *final(self)),
    {
        self.take_hunk(true);
    }

    /// What the status line says of a hunk that was applied or discarded.
    pub open spec fn hunk_text(ix: int, discard: bool, r: Result<JV, Seq<char>>) -> Seq<char> {
        let verb = if discard { "discard_hunk: "@ } else { "apply_hunk: "@ };
        match r {
            Ok(j) => if j.flag("ok"@) {
                (if discard { "discarded hunk "@ } else { "applied hunk "@ }) + sdec(ix)
            } else {
                verb + j.str_or("error"@, "failed"@)
            },
            Err(e) => verb + e,
        }
    }

    /// What a hunk that was applied or discarded changes: the boxes and the changes are loaded
    /// again, with the cursor on its row.
    pub open spec fn hunk_reply_v(self, ix: i64, discard: bool, r: Result<JV, Seq<char>>, post: App) -> bool {
        &&& post == (App {
            ui: (Ui { status: post.ui.status, ..self.ui }),
            diff: (Diff { pin: post.diff.pin, ..self.diff }),
            lists: self.lists.with(FilterView::Changes, (Win { view: None, ..self.lists.changes })),
            todo: post.todo,
            ..self
        })
        &&& post.ui.status@ == App::hunk_text(ix as int, discard, r)
        &&& match post.diff.pin {
            Some(p) => self.change_path() == Some(p@),
            None => self.change_path() is None,
        }
        &&& post.plan() == seq![StepV::Op(Op::RefreshSessions)] + self.closing(FilterView::Changes) + seq![
            StepV::Op(Op::ReopenForHunk),
            StepV::Op(Op::Fetch(FilterView::Changes, 0)),
            StepV::Op(Op::RepinHunk),
        ] + self.plan()
    }

    /// Takes in what came of a hunk that was to be applied or discarded.
    pub fn hunk_reply(&mut self, ix: i64, discard: bool, r: Result<Json, String>)
        ensures
            old(self).hunk_reply_v(ix, discard, rep_v(r), *final(self)),
    {
        let ghost orig = *self;
        let verb: &str = if discard { "discard_hunk: " } else { "apply_hunk: " };
        let s: String = match r {
            Ok(j) => {
                if j.flag("ok") {
                    own(if discard { "discarded hunk " } else { "applied hunk " }).concat(decimal_signed(ix).as_str())
                } else {
                    own(verb).concat(j.str_or("error", "failed"))
                }
            },
            Err(e) => own(verb).concat(e.as_str()),
        };
        self.say(s.as_str());
        let p: Option<String> = match self.cur_change_path() {
            Some(s) => Some(own(s)),
            None => None,
        };
        self.diff.pin = p;
        let view: Option<u64> = self.lists.changes.view;
        self.first_op(Op::RepinHunk);
        self.first_op(Op::Fetch(FilterView::Changes, 0));
        self.first_op(Op::ReopenForHunk);
        self.first_close(view);
        self.first_op(Op::RefreshSessions);
        assert(self.plan() =~= seq![StepV::Op(Op::RefreshSessions)] + orig.closing(FilterView::Changes) + seq![
            StepV::Op(Op::ReopenForHunk),
            StepV::Op(Op::Fetch(FilterView::Changes, 0)),
            StepV::Op(Op::RepinHunk),
        ] + orig.plan());
        self.lists.changes.view = None;
    }

    /// The change that `reopen_for_hunk` makes.
    pub open spec fn reopen_for_hunk_v(self, post: App) -> bool {
        &&& (post == (App { todo: post.todo, ..self }))
        &&& (post.plan() == (match self.sid_num() {
                Some(_) => seq![
                    StepV::Call("view.open"@, self.open_args(FilterView::Changes), Then::ReopenedForHunk),
                ],
                None => Seq::empty(),
            }) + self.plan())
    }

    /// Opens the changes again after a hunk was taken out of them.
    pub fn reopen_for_hunk(&mut self)
        ensures
            old(self).reopen_for_hunk_v(*final(self)),
    {
        match self.cur_sid_i64() {
            Some(n) => {
                self.first_open(FilterView::Changes, n, Then::ReopenedForHunk);
            },
            None => {
                assert(self.plan() =~= Seq::<StepV>::empty() + self.plan());
            },
        }
    }

    /// The change that `reopened_for_hunk` makes.
    pub open spec fn reopened_for_hunk_v(self, r: Result<Json, String>, post: App) -> bool {
        post == (match rep_v(r) {
                Ok(j) => self.with_win(
                    FilterView::Changes,
                    (Win {
                        view: match j.get_u64("view_id"@) {
                            Some(n) => Some(n as u64),
                            None => None,
                        },
                        total: fit(j.u64_or("total"@, 0)),
                        ..self.lists.changes
                    }),
                ),
                Err(_) => self,
            })
    }

    /// Takes in that the changes are open again.
    pub fn reopened_for_hunk(&mut self, r: Result<Json, String>)
        ensures
            old(self).reopened_for_hunk_v(r, *final(self)),
    {
        match r {
            Ok(j) => {
                self.lists.changes.view = j.get_u64("view_id");
                self.lists.changes.total = fit_usize(j.u64_or("total", 0));
            },
            Err(_) => {},
        }
    }

    /// The change that `repin_hunk` makes.
    pub open spec fn repin_hunk_v(self, post: App) -> bool {
        &&& (post == (App {
                lists: self.lists.with(
                    FilterView::Changes,
                    (Win {
                        sel: (match (match self.diff.pin {
                            Some(p) => find_str(self.lists.changes.rows@, "path"@, p@, 0),
                            None => None,
                        }) {
                            Some(i) => i,
                            None => 0,
                        }) as usize,
                        ..self.lists.changes
                    }),
                ),
                diff: (Diff {
                    sel_hunk: if self.hunk_list().len() > 0 && self.diff.sel_hunk
                        >= self.hunk_list().len() {
                        (self.hunk_list().len() - 1) as usize
                    } else {
                        self.diff.sel_hunk
                    },
                    ..self.diff
                }),
                todo: post.todo,
                ..self
            }))
        &&& (post.plan() == seq![StepV::Op(Op::LoadHunks)] + self.plan())
    }

    /// Puts the cursors of the changes and of the hunks back after a hunk was taken out, and
    /// loads the diff.
    pub fn repin_hunk(&mut self)
        ensures
            old(self).repin_hunk_v(*final(self)),
    {
        let found: Option<usize> = match &self.diff.pin {
            Some(p) => position_str(&self.lists.changes.rows, "path", p.as_str()),
            None => None,
        };
        let n: usize = self.hunk_indices().len();
        assert(n == self.hunk_list().len());
        self.lists.changes.sel = match found {
            Some(i) => i,
            None => 0,
        };
        if n > 0 && self.diff.sel_hunk >= n {
            self.diff.sel_hunk = n - 1;
        }
        self.first_op(Op::LoadHunks);
    }
}

} // verus!
