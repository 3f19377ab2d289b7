//! What is done to boxes, to changes and to the rules.

use vstd::prelude::*;

use crate::app::{App, Jobs, Op, Side, Step, Tally, Then, Ui};
#[allow(unused_imports)]
use crate::app::StepV;
use crate::json::{list0, list1, list2, Json};
#[allow(unused_imports)]
use crate::json::{jvs, JV};
#[allow(unused_imports)]
use crate::lists::{less_one, rep_v};
use crate::text::{decimal, join, own, split_lines, trim};
#[allow(unused_imports)]
use crate::text::{dec, drop_cr, joined, lines, lines_from, strs, trimmed};
use crate::types::{arr, ConfirmAction, Pane};

verus! {

/// The texts as values.
pub open spec fn text_values(v: Seq<Seq<char>>) -> Seq<JV> {
    v.map_values(|s: Seq<char>| JV::Str(s))
}

pub(crate) fn values_of(v: &Vec<String>) -> (r: Vec<Json>)
    ensures
        jvs(r@) == text_values(strs(v@)),
{
    let mut out: Vec<Json> = Vec::new();
    let mut i: usize = 0;
    while i < v.len()
        invariant
            i <= v@.len(),
            out@.len() == i,
            forall|k: int| 0 <= k < i ==> (#[trigger] out@[k])@ == JV::Str(v@[k]@),
        decreases v@.len() - i,
    {
        out.push(Json::text(v[i].as_str()));
        i += 1;
    }
    assert(jvs(out@) =~= text_values(strs(v@)));
    out
}

/// The arguments of a call for one box.
pub open spec fn box_args(id: Seq<char>, whole: bool) -> Seq<JV> {
    if whole { seq![JV::Str(id), JV::Null] } else { seq![JV::Str(id)] }
}

/// One call for each of the boxes, in their order.
pub open spec fn calls_for(verb: Seq<char>, ids: Seq<Seq<char>>, whole: bool, then: Then) -> Seq<StepV> {
    ids.map_values(|id: Seq<char>| StepV::Call(verb, box_args(id, whole), then))
}

/// The number of items of a list in an answer, or `d` where there is none.
pub open spec fn count_of(j: JV, k: Seq<char>, d: int) -> int {
    match j.get_arr(k) {
        Some(a) => a.len() as int,
        None => d,
    }
}

fn count_in(j: &Json, k: &str, d: usize) -> (r: usize)
    ensures
        r as int == count_of(j@, k@, d as int),
{
    match j.get_arr(k) {
        Some(a) => {
            assert(a@.len() == jvs(a@).len());
            a.len()
        },
        None => d,
    }
}

/// The word for what was done.
pub open spec fn done_word(discard: bool) -> Seq<char> {
    if discard { "discarded"@ } else { "applied"@ }
}

fn word_done(discard: bool) -> (r: &'static str)
    ensures
        r@ == done_word(discard),
{
    if discard {
        "discarded"
    } else {
        "applied"
    }
}

/// The verb of the engine.
pub open spec fn review_verb(discard: bool) -> Seq<char> {
    if discard { "review.discard"@ } else { "review.apply"@ }
}

fn verb_of_review(discard: bool) -> (r: &'static str)
    ensures
        r@ == review_verb(discard),
{
    if discard {
        "review.discard"
    } else {
        "review.apply"
    }
}

impl App {
    /// Puts one call for each of the boxes before all other steps.
    fn first_each(&mut self, verb: &'static str, ids: &Vec<String>, whole: bool, then: Then)
        ensures
            *final(self) == (App { todo: final(self).todo, ..*old(self) }),
            final(self).plan() == calls_for(verb@, strs(ids@), whole, then) + old(self).plan(),
    {
        let ghost all = calls_for(verb@, strs(ids@), whole, then);
        let mut k: usize = ids.len();
        assert(all.skip(k as int) + self.plan() =~= self.plan());
        while k > 0
            invariant
                k <= ids@.len(),
                all == calls_for(verb@, strs(ids@), whole, then),
                *self == (App { todo: self.todo, ..*old(self) }),
                self.plan() == all.skip(k as int) + old(self).plan(),
            decreases k,
        {
            let i: usize = k - 1;
            let args: Vec<Json> = if whole {
                list2(Json::text(ids[i].as_str()), Json::Null)
            } else {
                list1(Json::text(ids[i].as_str()))
            };
            let ghost before = self.plan();
            self.first_call(verb, args, then);
            assert(all[i as int] == StepV::Call(verb@, box_args(ids@[i as int]@, whole), then));
            assert(self.plan() =~= all.skip(i as int) + old(self).plan());
            k = i;
        }
        assert(all.skip(0) =~= all);
    }

    /// What is applied or discarded: the change at the cursor, or the whole box.
    pub open spec fn selector(self) -> JV {
        match self.change_path() {
            Some(p) => if self.ui.focus == Pane::Changes { JV::Arr(seq![JV::Str(p)]) } else { JV::Null },
            None => JV::Null,
        }
    }

    pub fn review_selector(&self) -> (r: Json)
        ensures
            r@ == self.selector(),
    {
        if self.ui.focus == Pane::Changes {
            match self.cur_change_path() {
                Some(p) => arr(list1(Json::text(p))),
                None => Json::Null,
            }
        } else {
            Json::Null
        }
    }

    /// The steps with which the selected rows are applied or discarded.
    pub open spec fn batch_steps(self, discard: bool) -> Seq<StepV> {
        let marks = self.marked();
        let then = seq![StepV::Op(Op::RefreshSessions), StepV::Op(Op::LoadChanges)];
        if self.ui.focus == Pane::Changes {
            match self.sid() {
                Some(sid) => seq![
                    StepV::Call(
                        review_verb(discard),
                        seq![JV::Str(sid), JV::Arr(text_values(marks))],
                        Then::ReviewMarked(discard, marks.len() as usize),
                    ),
                    StepV::Op(Op::ClearMarks),
                ] + then,
                None => Seq::empty(),
            }
        } else {
            calls_for(review_verb(discard), marks, true, Then::ReviewBox) + seq![
                StepV::Op(Op::FinishBatch(discard)),
            ] + then
        }
    }

    /// The steps with which the selected rows, or else the row at the cursor, are applied or
    /// discarded.
    pub open spec fn review_steps(self, discard: bool) -> Seq<StepV> {
        if self.marked().len() > 0 {
            self.batch_steps(discard)
        } else {
            match self.sid() {
                Some(sid) => seq![
                    StepV::Call(review_verb(discard), seq![JV::Str(sid), self.selector()], Then::Review(discard)),
                    StepV::Op(Op::RefreshSessions),
                    StepV::Op(Op::LoadChanges),
                ],
                None => Seq::empty(),
            }
        }
    }

    /// What applying or discarding changes.
    pub open spec fn review_v(self, discard: bool, post: App) -> bool {
        &&& post.plan() == self.review_steps(discard) + self.plan()
        &&& post == (App { jobs: (Jobs { tally: post.jobs.tally, ..self.jobs }), todo: post.todo, ..self })
        &&& if self.marked().len() > 0 && self.ui.focus != Pane::Changes {
            post.jobs.tally.ok == 0 && post.jobs.tally.err == 0 && post.jobs.tally.why is None
        } else {
            post.jobs.tally == self.jobs.tally
        }
    }

    /// Applies or discards the selected rows; tells whether there were any.
    pub fn batch_apply_discard(&mut self, discard: bool) -> (r: bool)
        ensures
            r == (old(self).marked().len() > 0),
            r ==> old(self).review_v(discard, *final(self)),
            !r ==> *final(self) == *old(self),
    {
        let ghost orig = *self;
        let marks: Vec<String> = self.marked_here();
        assert(marks@.len() == strs(marks@).len());
        if marks.len() == 0 {
            return false;
        }
        if self.ui.focus == Pane::Changes {
            let sid: Option<String> = match self.cur_sid() {
                Some(s) => Some(own(s)),
                None => None,
            };
            match sid {
                Some(s) => {
                    self.first_op(Op::LoadChanges);
                    self.first_op(Op::RefreshSessions);
                    self.first_op(Op::ClearMarks);
                    let args: Vec<Json> = list2(Json::Str(s), arr(values_of(&marks)));
                    self.first_call(verb_of_review(discard), args, Then::ReviewMarked(discard, marks.len()));
                    assert(self.plan() =~= orig.review_steps(discard) + orig.plan());
                },
                None => {
                    assert(self.plan() =~= orig.review_steps(discard) + orig.plan());
                },
            }
        } else {
            self.jobs.tally = Tally { ok: 0, err: 0, why: None };
            self.first_op(Op::LoadChanges);
            self.first_op(Op::RefreshSessions);
            self.first_op(Op::FinishBatch(discard));
            self.first_each(verb_of_review(discard), &marks, true, Then::ReviewBox);
            assert(self.plan() =~= orig.review_steps(discard) + orig.plan());
        }
        true
    }

    /// Applies or discards the selected rows, or else the row at the cursor.
    fn review(&mut self, discard: bool)
        ensures
            old(self).review_v(discard, *final(self)),
    {
        let ghost orig = *self;
        if self.batch_apply_discard(discard) {
            return;
        }
        let sid: Option<String> = match self.cur_sid() {
            Some(s) => Some(own(s)),
            None => None,
        };
        match sid {
            Some(s) => {
                let sel: Json = self.review_selector();
                self.first_op(Op::LoadChanges);
                self.first_op(Op::RefreshSessions);
                self.first_call(verb_of_review(discard), list2(Json::Str(s), sel), Then::Review(discard));
            },
            None => {},
        }
        assert(self.plan() =~= orig.review_steps(discard) + orig.plan());
    }

    pub fn apply(&mut self)
        ensures
            old(self).review_v(false, *final(self)),
    {
        self.review(false);
    }

    pub fn discard(&mut self)
        ensures
            old(self).review_v(true, *final(self)),
    {
        self.review(true);
    }

    /// The change that `review_reply` makes.
    pub open spec fn review_reply_v(self, discard: bool, r: Result<Json, String>, post: App) -> bool {
        self.says(
                post,
                match rep_v(r) {
                    Ok(j) => done_word(discard) + " "@ + dec(count_of(j, done_word(discard), 0)) + " change(s)"@,
                    Err(e) => (if discard { "discard: "@ } else { "apply: "@ }) + e,
                },
            )
    }

    /// Takes in what came of changes that were to be applied or discarded.
    pub fn review_reply(&mut self, discard: bool, r: Result<Json, String>)
        ensures
            old(self).review_reply_v(discard, r, *final(self)),
    {
        let s: String = match r {
            Ok(j) => {
                let n: usize = count_in(&j, word_done(discard), 0);
                own(word_done(discard)).concat(" ").concat(decimal(n as u64).as_str()).concat(" change(s)")
            },
            Err(e) => own(if discard { "discard: " } else { "apply: " }).concat(e.as_str()),
        };
        self.say(s.as_str());
    }

    /// The change that `review_marked_reply` makes.
    pub open spec fn review_marked_reply_v(self, discard: bool, files: usize, r: Result<Json, String>, post: App) -> bool {
        self.says(
                post,
                match rep_v(r) {
                    Ok(j) => done_word(discard) + " "@ + dec(count_of(j, done_word(discard), files as int))
                        + " change(s) in "@ + dec(files as int) + " file(s)"@,
                    Err(e) => review_verb(discard) + ": "@ + e,
                },
            )
    }

    /// Takes in what came of selected changes that were to be applied or discarded.
    pub fn review_marked_reply(&mut self, discard: bool, files: usize, r: Result<Json, String>)
        ensures
            old(self).review_marked_reply_v(discard, files, r, *final(self)),
    {
        let s: String = match r {
            Ok(j) => {
                let n: usize = count_in(&j, word_done(discard), files);
                own(word_done(discard)).concat(" ").concat(decimal(n as u64).as_str()).concat(" change(s) in ").concat(
                    decimal(files as u64).as_str(),
                ).concat(" file(s)")
            },
            Err(e) => own(verb_of_review(discard)).concat(": ").concat(e.as_str()),
        };
        self.say(s.as_str());
    }

    /// The steps with which all changes of the box are applied or discarded.
    pub open spec fn all_steps(self, discard: bool) -> Seq<StepV> {
        match self.sid() {
            Some(sid) => seq![
                StepV::Call(review_verb(discard), seq![JV::Str(sid), JV::Null], Then::ReviewAll(discard)),
                StepV::Op(Op::RefreshSessions),
                StepV::Op(Op::LoadChanges),
            ],
            None => Seq::empty(),
        }
    }

    fn review_all(&mut self, discard: bool)
        ensures
            *final(self) == (App { todo: final(self).todo, ..*old(self) }),
            final(self).plan() == old(self).all_steps(discard) + old(self).plan(),
    {
        let ghost orig = *self;
        let sid: Option<String> = match self.cur_sid() {
            Some(s) => Some(own(s)),
            None => None,
        };
        match sid {
            Some(s) => {
                self.first_op(Op::LoadChanges);
                self.first_op(Op::RefreshSessions);
                self.first_call(
                    verb_of_review(discard),
                    list2(Json::Str(s), Json::Null),
                    Then::ReviewAll(discard),
                );
            },
            None => {},
        }
        assert(self.plan() =~= orig.all_steps(discard) + orig.plan());
    }

    pub fn apply_all(&mut self)
        ensures
            *final(self) == (App { todo: final(self).todo, ..*old(self) }),
            final(self).plan() == old(self).all_steps(false) + old(self).plan(),
    {
        self.review_all(false);
    }

    pub fn discard_all(&mut self)
        ensures
            *final(self) == (App { todo: final(self).todo, ..*old(self) }),
            final(self).plan() == old(self).all_steps(true) + old(self).plan(),
    {
        self.review_all(true);
    }

    /// The change that `review_all_reply` makes.
    pub open spec fn review_all_reply_v(self, discard: bool, r: Result<Json, String>, post: App) -> bool {
        self.says(
                post,
                match rep_v(r) {
                    Ok(j) => done_word(discard) + " all ("@ + dec(count_of(j, done_word(discard), 0))
                        + " change(s))"@,
                    Err(e) => (if discard { "discard_all: "@ } else { "apply_all: "@ }) + e,
                },
            )
    }

    /// Takes in what came of all changes that were to be applied or discarded.
    pub fn review_all_reply(&mut self, discard: bool, r: Result<Json, String>)
        ensures
            old(self).review_all_reply_v(discard, r, *final(self)),
    {
        let s: String = match r {
            Ok(j) => {
                let n: usize = count_in(&j, word_done(discard), 0);
                own(word_done(discard)).concat(" all (").concat(decimal(n as u64).as_str()).concat(" change(s))")
            },
            Err(e) => own(if discard { "discard_all: " } else { "apply_all: " }).concat(e.as_str()),
        };
        self.say(s.as_str());
    }

    /// The change that `tally_reply` makes.
    pub open spec fn tally_reply_v(self, r: Result<Json, String>, post: App) -> bool {
        &&& (post == (App {
                jobs: (Jobs { tally: post.jobs.tally, ..self.jobs }),
                ..self
            }))
        &&& (match rep_v(r) {
                Ok(_) => {
                    &&& post.jobs.tally.err == self.jobs.tally.err
                    &&& post.jobs.tally.why == self.jobs.tally.why
                    &&& self.jobs.tally.ok < usize::MAX ==> post.jobs.tally.ok
                        == self.jobs.tally.ok + 1
                },
                Err(e) => {
                    &&& post.jobs.tally.ok == self.jobs.tally.ok
                    &&& self.jobs.tally.err < usize::MAX ==> post.jobs.tally.err
                        == self.jobs.tally.err + 1
                    &&& post.jobs.tally.why matches Some(w) && w@ == e
                },
            })
    }

    /// Counts the outcome of a call for one of several boxes.
    pub fn tally_reply(&mut self, r: Result<Json, String>)
        ensures
            old(self).tally_reply_v(r, *final(self)),
    {
        match r {
            Ok(_) => {
                self.jobs.tally.ok = self.jobs.tally.ok.saturating_add(1);
            },
            Err(e) => {
                self.jobs.tally.err = self.jobs.tally.err.saturating_add(1);
                self.jobs.tally.why = Some(e);
            },
        }
    }

    /// What the status line says of several boxes whose changes were applied or discarded.
    pub open spec fn batch_text(self, discard: bool) -> Seq<char> {
        let t = self.jobs.tally;
        if t.err == 0 {
            done_word(discard) + " all changes in "@ + dec(t.ok as int) + " box(es)"@
        } else {
            done_word(discard) + " "@ + dec(t.ok as int) + " box(es), "@ + dec(t.err as int) + " failed"@
        }
    }

    /// The change that `finish_batch` makes.
    pub open spec fn finish_batch_v(self, discard: bool, post: App) -> bool {
        exists|mid: App| self.says(mid, self.batch_text(discard)) && #[trigger] mid.clear_marks_v(post)
    }

    /// The selected boxes are done with: says so, and clears the selection.
    pub fn finish_batch(&mut self, discard: bool)
        ensures
            old(self).finish_batch_v(discard, *final(self)),
    {
        let ok: usize = self.jobs.tally.ok;
        let err: usize = self.jobs.tally.err;
        let s: String = if err == 0 {
            own(word_done(discard)).concat(" all changes in ").concat(decimal(ok as u64).as_str()).concat(" box(es)")
        } else {
            own(word_done(discard)).concat(" ").concat(decimal(ok as u64).as_str()).concat(" box(es), ").concat(
                decimal(err as u64).as_str(),
            ).concat(" failed")
        };
        self.say(s.as_str());
        let ghost mid = *self;
        let _ = self.clear_marks();
        assert(mid.clear_marks_v(*self));
    }

    /// The boxes that a confirmed action is for: the selected ones, or the one at the cursor.
    pub open spec fn targets(self) -> Seq<Seq<char>> {
        if self.marked().len() > 0 && self.ui.focus == Pane::Sessions {
            self.marked()
        } else {
            match self.sid() {
                Some(s) => seq![s],
                None => Seq::empty(),
            }
        }
    }

    /// The steps with which boxes are killed or dissolved, those within others before them.
    pub open spec fn confirm_steps(self, action: ConfirmAction) -> Seq<StepV> {
        match action {
            ConfirmAction::Kill => calls_for("kill"@, self.targets().reverse(), false, Then::BoxOp) + seq![
                StepV::Op(Op::FinishKill),
                StepV::Op(Op::RefreshSessions),
            ],
            ConfirmAction::Dissolve => calls_for("dissolve"@, self.targets().reverse(), false, Then::BoxOp) + seq![
                StepV::Op(Op::FinishDissolve),
                StepV::Op(Op::RefreshSessions),
                StepV::Op(Op::LoadChanges),
            ],
        }
    }

    /// What a confirmed action changes.
    pub open spec fn confirm_v(self, action: ConfirmAction, post: App) -> bool {
        &&& post.plan() == self.confirm_steps(action) + self.plan()
        &&& post.jobs.tally.ok == 0 && post.jobs.tally.err == 0 && post.jobs.tally.why is None
        &&& post == (App { jobs: (Jobs { tally: post.jobs.tally, ..self.jobs }), todo: post.todo, ..self })
    }

    /// The boxes that a confirmed action is for.
    fn target_ids(&self) -> (r: Vec<String>)
        ensures
            strs(r@) == self.targets(),
    {
        let marks: Vec<String> = self.marked_here();
        assert(marks@.len() == strs(marks@).len());
        if marks.len() > 0 && self.ui.focus == Pane::Sessions {
            return marks;
        }
        let mut v: Vec<String> = Vec::new();
        match self.cur_sid() {
            Some(s) => {
                v.push(own(s));
                assert(strs(v@) =~= seq![s@]);
            },
            None => {
                assert(strs(v@) =~= Seq::<Seq<char>>::empty());
            },
        }
        v
    }

    /// Does what was confirmed.
    pub fn run_confirm(&mut self, action: ConfirmAction)
        ensures
            old(self).confirm_v(action, *final(self)),
    {
        let ghost orig = *self;
        let ids: Vec<String> = self.target_ids();
        let back: Vec<String> = reversed(&ids);
        self.jobs.tally = Tally { ok: 0, err: 0, why: None };
        match action {
            ConfirmAction::Kill => {
                self.first_op(Op::RefreshSessions);
                self.first_op(Op::FinishKill);
                self.first_each("kill", &back, false, Then::BoxOp);
            },
            ConfirmAction::Dissolve => {
                self.first_op(Op::LoadChanges);
                self.first_op(Op::RefreshSessions);
                self.first_op(Op::FinishDissolve);
                self.first_each("dissolve", &back, false, Then::BoxOp);
            },
        }
        assert(self.plan() =~= orig.confirm_steps(action) + orig.plan());
    }

    /// What the status line says of boxes that were killed or dissolved.
    pub open spec fn confirm_text(self, action: ConfirmAction) -> Seq<char> {
        let t = self.jobs.tally;
        let why = match t.why {
            Some(w) => w@,
            None => Seq::empty(),
        };
        match action {
            ConfirmAction::Kill => if t.err == 0 {
                "sent SIGTERM to "@ + dec(t.ok as int) + " box(es)"@
            } else {
                "killed "@ + dec(t.ok as int) + ", "@ + dec(t.err as int) + " failed: "@ + why
            },
            ConfirmAction::Dissolve => if t.err == 0 {
                "dissolved "@ + dec(t.ok as int) + " box(es)"@
            } else {
                "dissolved "@ + dec(t.ok as int) + ", "@ + dec(t.err as int) + " failed: "@ + why
            },
        }
    }

    /// The change that `finish_confirm` makes.
    pub open spec fn finish_confirm_v(self, action: ConfirmAction, post: App) -> bool {
        exists|mid: App| #[trigger] self.clear_marks_v(mid) && mid.says(post, self.confirm_text(action))
    }

    /// The boxes are killed or dissolved: clears the selection, and says so.
    pub fn finish_confirm(&mut self, action: ConfirmAction)
        ensures
            old(self).finish_confirm_v(action, *final(self)),
    {
        let ghost orig = *self;
        let _ = self.clear_marks();
        let ghost mid = *self;
        let ok: usize = self.jobs.tally.ok;
        let err: usize = self.jobs.tally.err;
        let why: String = match &self.jobs.tally.why {
            Some(w) => w.clone(),
            None => String::new(),
        };
        let s: String = if err == 0 {
            match action {
                ConfirmAction::Kill => own("sent SIGTERM to ").concat(decimal(ok as u64).as_str()).concat(" box(es)"),
                ConfirmAction::Dissolve => own("dissolved ").concat(decimal(ok as u64).as_str()).concat(" box(es)"),
            }
        } else {
            own(
                match action {
                    ConfirmAction::Kill => "killed ",
                    ConfirmAction::Dissolve => "dissolved ",
                },
            ).concat(decimal(ok as u64).as_str()).concat(", ").concat(decimal(err as u64).as_str()).concat(
                " failed: ",
            ).concat(why.as_str())
        };
        self.say(s.as_str());
        assert(s@ == orig.confirm_text(action));
        assert(orig.clear_marks_v(mid) && mid.says(*self, orig.confirm_text(action)));
    }

    /// What a confirmed action is said to be for.
    pub open spec fn scope_text(self) -> Seq<char> {
        if self.marked().len() > 0 && self.ui.focus == Pane::Sessions {
            dec(self.marked().len() as int) + " selected box(es)"@
        } else {
            "the selected box"@
        }
    }

    pub fn box_op_scope_label(&self) -> (r: String)
        ensures
            r@ == self.scope_text(),
    {
        let marks: Vec<String> = self.marked_here();
        assert(marks@.len() == strs(marks@).len());
        if marks.len() > 0 && self.ui.focus == Pane::Sessions {
            decimal(marks.len() as u64).concat(" selected box(es)")
        } else {
            own("the selected box")
        }
    }

    /// What giving the box at the cursor the name that was typed changes.
    pub open spec fn commit_rename_v(self, post: App) -> bool {
        &&& post == (App { ui: (Ui { renaming: None, ..self.ui }), todo: post.todo, ..self })
        &&& post.plan() == (match (self.ui.renaming, self.sid()) {
            (Some(name), Some(sid)) => seq![StepV::Rename(sid, name@), StepV::Op(Op::RefreshSessions)],
            _ => Seq::empty(),
        }) + self.plan()
    }

    /// Gives the box at the cursor the name that was typed.
    pub fn commit_rename(&mut self)
        ensures
            old(self).commit_rename_v(*final(self)),
    {
        let ghost orig = *self;
        let sid: Option<String> = match self.cur_sid() {
            Some(s) => Some(own(s)),
            None => None,
        };
        let name: Option<String> = self.ui.renaming.take();
        match (name, sid) {
            (Some(n), Some(s)) => {
                self.first_op(Op::RefreshSessions);
                self.first(Step::Rename { sid: s, name: n });
                assert(self.plan() =~= seq![StepV::Rename(s@, n@), StepV::Op(Op::RefreshSessions)] + orig.plan());
            },
            _ => {
                assert(self.plan() =~= Seq::<StepV>::empty() + orig.plan());
            },
        }
    }

    /// Takes in what came of a new name for a box.
    pub fn renamed(&mut self, sid: &str, name: &str, r: Result<(), String>)
        ensures
            old(self).says(
                *final(self),
                match r {
                    Ok(_) => "renamed box "@ + sid@ + " -> "@ + name@,
                    Err(e) => "rename: "@ + e@,
                },
            ),
    {
        let s: String = match r {
            Ok(_) => own("renamed box ").concat(sid).concat(" -> ").concat(name),
            Err(e) => own("rename: ").concat(e.as_str()),
        };
        self.say(s.as_str());
    }
}

fn reversed(v: &Vec<String>) -> (r: Vec<String>)
    ensures
        strs(r@) == strs(v@).reverse(),
{
    let mut out: Vec<String> = Vec::new();
    let mut k: usize = v.len();
    while k > 0
        invariant
            k <= v@.len(),
            out@.len() == v@.len() - k,
            forall|i: int| 0 <= i < out@.len() ==> (#[trigger] out@[i])@ == v@[v@.len() - 1 - i]@,
        decreases k,
    {
        k -= 1;
        out.push(v[k].clone());
    }
    assert(strs(out@) =~= strs(v@).reverse());
    out
}

/// The rules file: one rule to a line.
pub open spec fn rules_text(rules: Seq<Seq<char>>) -> Seq<char> {
    if rules.len() == 0 { Seq::empty() } else { joined(rules, "\n"@) + "\n"@ }
}

impl App {
    /// What is done once the rules have changed: they are written.
    pub fn save_rules(&mut self)
        ensures
            *final(self) == (App { todo: final(self).todo, ..*old(self) }),
            final(self).plan() == seq![StepV::WriteRules(rules_text(strs(old(self).side.rules@)))] + old(self).plan(),
    {
        assert(self.side.rules@.len() == strs(self.side.rules@).len());
        let body: String = if self.side.rules.len() == 0 {
            String::new()
        } else {
            join(&self.side.rules, "\n").concat("\n")
        };
        self.first(Step::WriteRules(body));
    }

    /// What it changes that the rules were written, or could not be.
    pub open spec fn rules_written_v(self, r: Result<(), String>, post: App) -> bool {
        match r {
            Ok(_) => {
                &&& post == (App { todo: post.todo, ..self })
                &&& post.plan() == seq![StepV::Call("reload_rules"@, Seq::empty(), Then::RulesReloaded)] + self.plan()
            },
            Err(e) => self.says(post, "write rules: "@ + e@),
        }
    }

    /// Takes in whether the rules were written; then the engine is told.
    pub fn rules_written(&mut self, r: Result<(), String>)
        ensures
            old(self).rules_written_v(r, *final(self)),
    {
        match r {
            Ok(_) => {
                self.first_call("reload_rules", list0(), Then::RulesReloaded);
            },
            Err(e) => {
                let s: String = own("write rules: ").concat(e.as_str());
                self.say(s.as_str());
            },
        }
    }

    /// The change that `rules_reloaded` makes.
    pub open spec fn rules_reloaded_v(self, r: Result<Json, String>, post: App) -> bool {
        self.says(
                post,
                match rep_v(r) {
                    Ok(_) => "saved "@ + dec(self.side.rules@.len() as int) + " rule(s) · reloaded"@,
                    Err(e) => "reload_rules: "@ + e,
                },
            )
    }

    /// Takes in whether the engine has read the rules.
    pub fn rules_reloaded(&mut self, r: Result<Json, String>)
        ensures
            old(self).rules_reloaded_v(r, *final(self)),
    {
        let s: String = match r {
            Ok(_) => own("saved ").concat(decimal(self.side.rules.len() as u64).as_str()).concat(" rule(s) · reloaded"),
            Err(e) => own("reload_rules: ").concat(e.as_str()),
        };
        self.say(s.as_str());
    }

    /// What the rules file, once it is read, changes.
    pub open spec fn rules_read_v(self, text: Seq<char>, post: App) -> bool {
        &&& strs(post.side.rules@) == lines(text)
        &&& post == (App {
            side: (Side {
                rules: post.side.rules,
                sel_rule: if self.side.sel_rule >= lines(text).len() {
                    less_one(lines(text).len() as int) as usize
                } else {
                    self.side.sel_rule
                },
                ..self.side
            }),
            ..self
        })
    }

    /// Takes in the rules file.
    pub fn rules_read(&mut self, text: &str)
        ensures
            old(self).rules_read_v(text@, *final(self)),
    {
        let v: Vec<String> = split_lines(text);
        assert(v@.len() == strs(v@).len());
        let n: usize = v.len();
        self.side.rules = v;
        if self.side.sel_rule >= n {
            self.side.sel_rule = if n > 0 { n - 1 } else { 0 };
        }
    }

    /// What a rule that was typed changes.
    pub open spec fn commit_rule_v(self, buf: Seq<char>, editing: Option<usize>, post: App) -> bool {
        let line = trimmed(buf);
        let old_rules = strs(self.side.rules@);
        if line.len() == 0 {
            self.says(post, "empty rule discarded"@)
        } else {
            &&& strs(post.side.rules@) == (match editing {
                Some(i) => if i < old_rules.len() { old_rules.update(i as int, line) } else { old_rules.push(line) },
                None => old_rules.push(line),
            })
            &&& post == (App { side: (Side { rules: post.side.rules, ..self.side }), todo: post.todo, ..self })
            &&& post.plan() == seq![StepV::WriteRules(rules_text(strs(post.side.rules@)))] + self.plan()
        }
    }

    /// Takes in a rule that was typed, in place of another or as a new one.
    pub fn commit_rule(&mut self, buf: &str, editing: Option<usize>)
        ensures
            old(self).commit_rule_v(buf@, editing, *final(self)),
    {
        let line: String = trim(buf);
        if line.as_str().is_empty() {
            self.say("empty rule discarded");
            return;
        }
        let ghost before = strs(self.side.rules@);
        assert(self.side.rules@.len() == before.len());
        let at: Option<usize> = match editing {
            Some(i) => if i < self.side.rules.len() { Some(i) } else { None },
            None => None,
        };
        match at {
            Some(i) => {
                self.side.rules.set(i, line);
                assert(strs(self.side.rules@) =~= before.update(i as int, line@));
            },
            None => {
                self.side.rules.push(line);
                assert(strs(self.side.rules@) =~= before.push(line@));
            },
        }
        self.save_rules();
    }

    /// What deleting the rule at the cursor changes.
    pub open spec fn delete_rule_v(self, post: App) -> bool {
        let old_rules = strs(self.side.rules@);
        let i = self.side.sel_rule;
        if i < old_rules.len() {
            let rest = old_rules.remove(i as int);
            &&& strs(post.side.rules@) == rest
            &&& post == (App {
                side: (Side {
                    rules: post.side.rules,
                    sel_rule: if i >= rest.len() { less_one(rest.len() as int) as usize } else { i },
                    ..self.side
                }),
                todo: post.todo,
                ..self
            })
            &&& post.plan() == seq![StepV::WriteRules(rules_text(rest))] + self.plan()
        } else {
            post == self
        }
    }

    /// Deletes the rule at the cursor.
    pub fn delete_rule(&mut self)
        ensures
            old(self).delete_rule_v(*final(self)),
    {
        let ghost before = strs(self.side.rules@);
        assert(self.side.rules@.len() == before.len());
        if self.side.sel_rule < self.side.rules.len() {
            let i: usize = self.side.sel_rule;
            let _ = self.side.rules.remove(i);
            assert(strs(self.side.rules@) =~= before.remove(i as int));
            let n: usize = self.side.rules.len();
            if i >= n {
                self.side.sel_rule = if n > 0 { n - 1 } else { 0 };
            }
            self.save_rules();
        }
    }

    /// What moving the rule at the cursor by one changes.
    pub open spec fn move_rule_v(self, down: bool, post: App) -> bool {
        let old_rules = strs(self.side.rules@);
        let i = self.side.sel_rule as int;
        let j = if down { i + 1 } else { i - 1 };
        if 0 <= j < old_rules.len() && i < old_rules.len() {
            let swapped = old_rules.update(i, old_rules[j]).update(j, old_rules[i]);
            &&& strs(post.side.rules@) == swapped
            &&& post == (App {
                side: (Side { rules: post.side.rules, sel_rule: j as usize, ..self.side }),
                todo: post.todo,
                ..self
            })
            &&& post.plan() == seq![StepV::WriteRules(rules_text(swapped))] + self.plan()
        } else {
            post == self
        }
    }

    /// Moves the rule at the cursor by one; the cursor goes with it.
    pub fn move_rule(&mut self, down: bool)
        ensures
            old(self).move_rule_v(down, *final(self)),
    {
        let ghost before = strs(self.side.rules@);
        assert(self.side.rules@.len() == before.len());
        let n: usize = self.side.rules.len();
        let i: usize = self.side.sel_rule;
        if i >= n || (down && i + 1 >= n) || (!down && i == 0) {
            return;
        }
        let j: usize = if down { i + 1 } else { i - 1 };
        let a: String = self.side.rules[i].clone();
        let b: String = self.side.rules[j].clone();
        self.side.rules.set(i, b);
        self.side.rules.set(j, a);
        assert(strs(self.side.rules@) =~= before.update(i as int, before[j as int]).update(j as int, before[i as int]));
        self.side.sel_rule = j;
        self.save_rules();
    }
}

/// A text that stands on one line of a file.
pub open spec fn one_line(s: Seq<char>) -> bool {
    !s.contains('\n') && (s.len() == 0 || s.last() != '\r')
}

proof fn lemma_lines_skip(a: Seq<char>, rest: Seq<char>, cur: Seq<char>)
    requires
        !a.contains('\n'),
    ensures
        lines_from(a + rest, cur) == lines_from(rest, cur + a),
    decreases a.len(),
{
    if a.len() == 0 {
        assert(a + rest =~= rest);
        assert(cur + a =~= cur);
    } else {
        let s = a + rest;
        assert(a.contains(a[0]));
        assert(s[0] == a[0]);
        assert(s.drop_first() =~= a.drop_first() + rest);
        assert forall|c: char| a.drop_first().contains(c) implies a.contains(c) by {
            let i = choose|i: int| 0 <= i < a.drop_first().len() && a.drop_first()[i] == c;
            assert(a[i + 1] == c);
        }
        lemma_lines_skip(a.drop_first(), rest, cur.push(a[0]));
        assert(cur.push(a[0]) + a.drop_first() =~= cur + a);
    }
}

proof fn lemma_rules_text_front(rules: Seq<Seq<char>>)
    requires
        rules.len() > 0,
    ensures
        rules_text(rules) == rules[0] + "\n"@ + rules_text(rules.drop_first()),
    decreases rules.len(),
{
    if rules.len() == 1 {
        assert(rules_text(rules) =~= rules[0] + "\n"@ + rules_text(rules.drop_first()));
    } else {
        let d = rules.drop_last();
        lemma_rules_text_front(d);
        assert(d.drop_first() =~= rules.drop_first().drop_last());
        assert(joined(d, "\n"@) + "\n"@ == rules_text(d));
        if rules.len() == 2 {
            assert(rules_text(d.drop_first()) =~= Seq::<char>::empty());
            assert(rules.drop_first() =~= seq![rules.last()]);
            assert(rules_text(rules) =~= rules[0] + "\n"@ + rules_text(rules.drop_first()));
        } else {
            assert(rules_text(d.drop_first()) == joined(d.drop_first(), "\n"@) + "\n"@);
            assert(rules_text(rules) =~= rules_text(d) + rules.last() + "\n"@);
            assert(rules_text(rules.drop_first()) =~= rules_text(d.drop_first()) + rules.last() + "\n"@);
            assert(rules_text(rules) =~= rules[0] + "\n"@ + rules_text(rules.drop_first()));
        }
    }
}

/// What is read from the rules file is what was written to it.
pub proof fn law_rules_survive_the_file(rules: Seq<Seq<char>>)
    requires
        forall|i: int| 0 <= i < rules.len() ==> one_line(#[trigger] rules[i]),
    ensures
        lines(rules_text(rules)) == rules,
    decreases rules.len(),
{
    reveal_strlit("\n");
    if rules.len() == 0 {
        assert(lines(rules_text(rules)) =~= rules);
    } else {
        lemma_rules_text_front(rules);
        let rest = rules.drop_first();
        let tail = "\n"@ + rules_text(rest);
        assert(rules_text(rules) =~= rules[0] + tail);
        assert(one_line(rules[0]));
        lemma_lines_skip(rules[0], tail, Seq::empty());
        assert(Seq::<char>::empty() + rules[0] =~= rules[0]);
        assert(tail[0] == '\n');
        assert(tail.drop_first() =~= rules_text(rest));
        assert forall|i: int| 0 <= i < rest.len() implies one_line(#[trigger] rest[i]) by {
            assert(rest[i] == rules[i + 1]);
        }
        law_rules_survive_the_file(rest);
        assert(drop_cr(rules[0]) == rules[0]);
        assert(seq![rules[0]] + rest =~= rules);
    }
}

/// A rule that is moved by one and back stands where it stood, and the file holds what it held.
pub proof fn law_rule_moves_back(a: App, b: App, c: App, down: bool)
    requires
        a.move_rule_v(down, b),
        b.side.sel_rule != a.side.sel_rule,
        b.move_rule_v(!down, c),
    ensures
        strs(c.side.rules@) == strs(a.side.rules@),
        c.side.sel_rule == a.side.sel_rule,
        c.plan().len() > 0 && c.plan()[0] == StepV::WriteRules(rules_text(strs(a.side.rules@))),
{
    let rules = strs(a.side.rules@);
    let i = a.side.sel_rule as int;
    let j = if down { i + 1 } else { i - 1 };
    assert(a.side.rules.len() == rules.len());
    assert(b.side.rules.len() == strs(b.side.rules@).len());
    let swapped = rules.update(i, rules[j]).update(j, rules[i]);
    assert(swapped.update(j, swapped[i]).update(i, swapped[j]) =~= rules);
}

impl App {
    /// The cursor of the rules is on one of them, or on the first place where there are none.
    pub open spec fn rule_cursor_fits(self) -> bool {
        self.side.sel_rule < self.side.rules@.len() || self.side.sel_rule == 0
    }
}

/// The cursor of the rules stays on one of them, whatever is done to the rules.
pub proof fn law_rule_cursor_stays_on_a_rule(a: App, b: App, buf: Seq<char>, editing: Option<usize>, down: bool)
    requires
        a.rule_cursor_fits(),
        a.commit_rule_v(buf, editing, b) || a.delete_rule_v(b) || a.move_rule_v(down, b),
    ensures
        b.rule_cursor_fits(),
{
    assert(a.side.rules@.len() == strs(a.side.rules@).len());
    assert(b.side.rules@.len() == strs(b.side.rules@).len());
    assert(a.side.rules.len() == a.side.rules@.len());
}

} // verus!
