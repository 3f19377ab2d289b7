//! What the engine tells unasked.

use vstd::prelude::*;

use crate::app::{App, Op};
#[allow(unused_imports)]
use crate::app::StepV;
use crate::json::Json;
#[allow(unused_imports)]
use crate::json::JV;
use crate::text::{decimal, own, same};
#[allow(unused_imports)]
use crate::text::dec;
use crate::types::{FilterView, Pane};

verus! {

/// The box that an event is about.
pub open spec fn event_box(ev: JV) -> Option<Seq<char>> {
    match ev.get_str("sid"@) {
        Some(s) => Some(s),
        None => ev.get_str("session_id"@),
    }
}

impl App {
    /// A box is the one at the cursor.
    pub open spec fn is_here(self, b: Option<Seq<char>>) -> bool {
        b is Some && b == self.sid()
    }

    fn box_is_here(&self, b: Option<&str>) -> (r: bool)
        ensures
            r == self.is_here(
                match b {
                    Some(s) => Some(s@),
                    None => None,
                },
            ),
    {
        match (b, self.cur_sid()) {
            (Some(x), Some(y)) => same(x, y),
            _ => false,
        }
    }

    /// What the change of a file, or a new process, of the box at the cursor changes.
    pub open spec fn touched_v(self, overlay: bool, post: App) -> bool {
        match self.ui.focus {
            Pane::Changes | Pane::Hunks => if overlay { self.refresh_v(FilterView::Changes, post) } else { post == self },
            Pane::Processes => if overlay { post == self } else { self.refresh_v(FilterView::Procs, post) },
            Pane::Outputs => if overlay { self.refresh_v(FilterView::Outputs, post) } else { post == self },
            Pane::Sessions => self.recent_v(post),
            _ => post == self,
        }
    }

    /// What an event changes.
    pub open spec fn event_v(self, ev: JV, post: App) -> bool {
        match ev.get_str("type"@) {
            None => post == self,
            Some(t) => if t == "session_added"@ || t == "session_removed"@ || t == "session_renamed"@ {
                self.planned(
                    seq![
                        StepV::Op(Op::RefreshSessions),
                        StepV::Op(Op::LoadChanges),
                        StepV::Say("event: "@ + t),
                    ],
                    post,
                )
            } else if t == "overlay"@ || t == "process_added"@ {
                if self.is_here(event_box(ev)) { self.touched_v(t == "overlay"@, post) } else { post == self }
            } else if t == "brush_prov"@ {
                if self.is_here(ev.get_str("session_id"@)) && self.ui.focus == Pane::Pipelines {
                    self.refresh_v(FilterView::Pipelines, post)
                } else {
                    post == self
                }
            } else if t == "build_edges"@ {
                if self.is_here(ev.get_str("session_id"@)) && self.ui.focus == Pane::BuildEdges {
                    self.refresh_v(FilterView::BuildEdges, post)
                } else {
                    post == self
                }
            } else if t == "webcap_added"@ {
                if self.is_here(ev.get_str("sid"@)) && self.ui.focus == Pane::Network {
                    self.planned(self.web_call(), post)
                } else {
                    post == self
                }
            } else if t == "consolidate_progress"@ {
                self.says(
                    post,
                    "consolidating… "@ + dec(ev.u64_or("done"@, 0)) + "/"@ + dec(ev.u64_or("total"@, 0)),
                )
            } else if t == "consolidate_done"@ {
                exists|mid: App| #[trigger] self.says(mid, "consolidated"@) && mid.load_v(FilterView::Changes, post)
            } else if t == "consolidate_failed"@ {
                self.says(post, "consolidate failed: "@ + ev.str_or("error"@, "?"@))
            } else if t == "pong"@ {
                self.says(post, "pong"@)
            } else {
                post == self
            },
        }
    }

    fn touched(&mut self, overlay: bool)
        ensures
            old(self).touched_v(overlay, *final(self)),
    {
        match self.ui.focus {
            Pane::Changes | Pane::Hunks => {
                if overlay {
                    self.refresh_list(FilterView::Changes);
                }
            },
            Pane::Processes => {
                if !overlay {
                    self.refresh_list(FilterView::Procs);
                }
            },
            Pane::Outputs => {
                if overlay {
                    self.refresh_list(FilterView::Outputs);
                }
            },
            Pane::Sessions => {
                self.refresh_recent_changes();
            },
            _ => {},
        }
    }

    /// Takes in what the engine tells unasked.
    pub fn on_event(&mut self, ev: &Json)
        ensures
            old(self).event_v(ev@, *final(self)),
    {
        let ghost orig = *self;
        let t: &str = match ev.get_str("type") {
            Some(t) => t,
            None => {
                return;
            },
        };
        if same(t, "session_added") || same(t, "session_removed") || same(t, "session_renamed") {
            let s: String = own("event: ").concat(t);
            self.first_say(s.as_str());
            self.first_op(Op::LoadChanges);
            self.first_op(Op::RefreshSessions);
            assert(self.plan() =~= seq![
                StepV::Op(Op::RefreshSessions),
                StepV::Op(Op::LoadChanges),
                StepV::Say("event: "@ + t@),
            ] + orig.plan());
        } else if same(t, "overlay") || same(t, "process_added") {
            let b: Option<&str> = match ev.get_str("sid") {
                Some(s) => Some(s),
                None => ev.get_str("session_id"),
            };
            if self.box_is_here(b) {
                self.touched(same(t, "overlay"));
            }
        } else if same(t, "brush_prov") {
            if self.box_is_here(ev.get_str("session_id")) && self.ui.focus == Pane::Pipelines {
                self.refresh_list(FilterView::Pipelines);
            }
        } else if same(t, "build_edges") {
            if self.box_is_here(ev.get_str("session_id")) && self.ui.focus == Pane::BuildEdges {
                self.refresh_list(FilterView::BuildEdges);
            }
        } else if same(t, "webcap_added") {
            if self.box_is_here(ev.get_str("sid")) && self.ui.focus == Pane::Network {
                self.load_webcap();
            }
        } else if same(t, "consolidate_progress") {
            let s: String = own("consolidating… ").concat(decimal(ev.u64_or("done", 0)).as_str()).concat("/").concat(
                decimal(ev.u64_or("total", 0)).as_str(),
            );
            self.say(s.as_str());
        } else if same(t, "consolidate_done") {
            self.say("consolidated");
            let ghost mid = *self;
            assert(orig.says(mid, "consolidated"@));
            self.load_list(FilterView::Changes);
        } else if same(t, "consolidate_failed") {
            let s: String = own("consolidate failed: ").concat(ev.str_or("error", "?"));
            self.say(s.as_str());
        } else if same(t, "pong") {
            self.say("pong");
        }
    }
}

/// What another box does changes nothing here.
pub proof fn law_other_boxes_change_nothing(a: App, b: App, ev: JV)
    requires
        ev.get_str("type"@) == Some("overlay"@) || ev.get_str("type"@) == Some("process_added"@),
        !a.is_here(event_box(ev)),
        a.event_v(ev, b),
    ensures
        b == a,
{
    reveal_strlit("overlay");
    reveal_strlit("process_added");
    reveal_strlit("session_added");
    reveal_strlit("session_removed");
    reveal_strlit("session_renamed");
    assert("overlay"@.len() == 7);
    assert("process_added"@[0] == 'p');
    assert("session_added"@.len() == 13 && "session_added"@[0] == 's');
}

} // verus!
