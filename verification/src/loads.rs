//! What is loaded as a whole: captured flows and packets, questions of the engine, calls of
//! models, web captures.

use vstd::prelude::*;

use crate::app::{App, FlowList, Jobs, Op, RowList, Side, Step, Then, Ui};
#[allow(unused_imports)]
use crate::app::StepV;
use crate::json::{copy_all, list0, list1, list2, Json};
#[allow(unused_imports)]
use crate::json::{jvs, JV};
#[allow(unused_imports)]
use crate::lists::{less_one, rep_v};
use crate::text::{contains, decimal_signed, own, same};
#[allow(unused_imports)]
use crate::text::{holds_text, sdec};
use crate::types::Pane;

verus! {

/// The frame of the row at the cursor; nothing where there is no row.
pub open spec fn frame_at(l: FlowList) -> Option<int> {
    if l.sel < l.rows@.len() { Some(l.rows@[l.sel as int]@.u64_or("frame"@, 0)) } else { None }
}

/// The frame that is to be decoded: the one at the cursor, unless it is the one that is shown.
pub open spec fn frame_wanted(l: FlowList) -> Option<int> {
    match frame_at(l) {
        Some(f) => if f == 0 || (f == l.frame && l.detail@.len() > 0) { None } else { Some(f) },
        None => None,
    }
}

/// What is shown while the frame at the cursor is looked up.
pub open spec fn looking_up(l: FlowList, post: FlowList) -> bool {
    &&& post == (FlowList { detail: post.detail, frame: post.frame, ..l })
    &&& match frame_at(l) {
        None => post.detail@.len() == 0 && post.frame == 0,
        Some(f) => if f == 0 {
            post.detail@.len() == 0 && post.frame == l.frame
        } else if f == l.frame && l.detail@.len() > 0 {
            post == l
        } else {
            post.detail == l.detail && post.frame as int == f
        },
    }
}

impl FlowList {
    fn look_up(&mut self) -> (r: Option<u64>)
        ensures
            looking_up(*old(self), *final(self)),
            match r {
                Some(f) => frame_wanted(*old(self)) == Some(f as int),
                None => frame_wanted(*old(self)) is None,
            },
    {
        if self.sel >= self.rows.len() {
            self.detail = String::new();
            self.frame = 0;
            return None;
        }
        let f: u64 = self.rows[self.sel].u64_or("frame", 0);
        if f == 0 {
            self.detail = String::new();
            return None;
        }
        if f == self.frame && !self.detail.as_str().is_empty() {
            return None;
        }
        self.frame = f;
        Some(f)
    }
}

/// The decoded text of a frame, or why there is none.
pub open spec fn frame_text(r: Result<JV, Seq<char>>) -> Seq<char> {
    match r {
        Ok(j) => if j.flag("ok"@) {
            j.str_or("text"@, ""@)
        } else {
            "tshark error: "@ + j.str_or("error"@, "?"@)
        },
        Err(e) => "rpc error: "@ + e,
    }
}

fn text_of_frame(r: Result<Json, String>) -> (s: String)
    ensures
        s@ == frame_text(rep_v(r)),
{
    match r {
        Ok(j) => {
            if j.flag("ok") {
                own(j.str_or("text", ""))
            } else {
                own("tshark error: ").concat(j.str_or("error", "?"))
            }
        },
        Err(e) => own("rpc error: ").concat(e.as_str()),
    }
}

/// The first row that is of a frame.
pub open spec fn frame_row(rows: Seq<JV>, frame: int, i: int) -> Option<int>
    decreases rows.len() - i,
{
    if i < 0 || i >= rows.len() {
        None
    } else if rows[i].get_u64("frame"@) == Some(frame) {
        Some(i)
    } else {
        frame_row(rows, frame, i + 1)
    }
}

fn row_of_frame(rows: &Vec<Json>, frame: u64) -> (r: Option<usize>)
    ensures
        match r {
            Some(i) => frame_row(jvs(rows@), frame as int, 0) == Some(i as int) && i < rows@.len(),
            None => frame_row(jvs(rows@), frame as int, 0) is None,
        },
{
    let mut i: usize = 0;
    while i < rows.len()
        invariant
            i <= rows@.len(),
            frame_row(jvs(rows@), frame as int, 0) == frame_row(jvs(rows@), frame as int, i as int),
        decreases rows@.len() - i,
    {
        assert(jvs(rows@)[i as int] == rows@[i as int]@);
        match rows[i].get_u64("frame") {
            Some(f) => {
                if f == frame {
                    return Some(i);
                }
            },
            None => {},
        }
        i += 1;
    }
    None
}

/// A list that was sent under a name, or none.
fn rows_under(j: &Json, k: &str) -> (r: Option<Vec<Json>>)
    ensures
        match r {
            Some(v) => j@.get_arr(k@) == Some(jvs(v@)),
            None => j@.get_arr(k@) is None,
        },
{
    match j.get_arr(k) {
        Some(a) => Some(copy_all(a)),
        None => None,
    }
}

/// What a question of the engine can be answered.
#[derive(Clone, Copy, Debug, PartialEq, Eq, Structural)]
pub enum Verdict {
    YesOnce,
    NoOnce,
    AllowSave,
    DenySave,
}

/// The engine's name for an answer.
pub open spec fn verdict_name(v: Verdict) -> Seq<char> {
    match v {
        Verdict::YesOnce => "yes_once"@,
        Verdict::NoOnce => "no_once"@,
        Verdict::AllowSave => "allow_save"@,
        Verdict::DenySave => "deny_save"@,
    }
}

fn name_of_verdict(v: Verdict) -> (r: &'static str)
    ensures
        r@ == verdict_name(v),
{
    match v {
        Verdict::YesOnce => "yes_once",
        Verdict::NoOnce => "no_once",
        Verdict::AllowSave => "allow_save",
        Verdict::DenySave => "deny_save",
    }
}

/// What is said of an answer.
pub open spec fn verdict_text(v: Verdict, host: Seq<char>) -> Seq<char> {
    (match v {
        Verdict::YesOnce => "allow this once: "@,
        Verdict::NoOnce => "deny this once: "@,
        Verdict::AllowSave => "ALLOW + saved: apply host:"@,
        Verdict::DenySave => "DENY + saved: discard host:"@,
    }) + host
}

fn text_of_verdict(v: Verdict, host: &str) -> (r: String)
    ensures
        r@ == verdict_text(v, host@),
{
    own(
        match v {
            Verdict::YesOnce => "allow this once: ",
            Verdict::NoOnce => "deny this once: ",
            Verdict::AllowSave => "ALLOW + saved: apply host:",
            Verdict::DenySave => "DENY + saved: discard host:",
        },
    ).concat(host)
}

/// The question that an answer of the engine holds.
pub open spec fn asked(j: JV) -> Option<JV> {
    match j.get("ask"@) {
        Some(JV::Null) => None,
        other => other,
    }
}

/// What an optional value is.
pub open spec fn opt_jv(o: Option<Json>) -> Option<JV> {
    match o {
        Some(j) => Some(j@),
        None => None,
    }
}

/// What an optional text is.
pub open spec fn opt_text(o: Option<String>) -> Option<Seq<char>> {
    match o {
        Some(s) => Some(s@),
        None => None,
    }
}

/// The list that an answer is; none where it is something else.
pub open spec fn list_in(j: JV) -> Seq<JV> {
    match j.arr() {
        Some(a) => a,
        None => Seq::empty(),
    }
}

fn rows_in_reply(j: &Json) -> (r: Vec<Json>)
    ensures
        jvs(r@) == list_in(j@),
{
    match j.as_arr() {
        Some(a) => copy_all(a),
        None => {
            let v: Vec<Json> = Vec::new();
            assert(jvs(v@) =~= Seq::<JV>::empty());
            v
        },
    }
}

impl App {
    fn own_sid(&self) -> (r: Option<String>)
        ensures
            opt_text(r) == self.sid(),
    {
        match self.cur_sid() {
            Some(s) => Some(own(s)),
            None => None,
        }
    }

    /// What asking for the captured flows of the box changes.
    pub open spec fn load_flows_v(self, post: App) -> bool {
        &&& post.side.flows.rows@.len() == 0
        &&& post.side.flows.detail@.len() == 0
        &&& post == (App {
            side: (Side {
                flows: (FlowList {
                    rows: post.side.flows.rows,
                    sel: 0,
                    detail: post.side.flows.detail,
                    frame: 0,
                }),
                ..self.side
            }),
            ui: (Ui { right_scroll: 0, ..self.ui }),
            todo: post.todo,
            ..self
        })
        &&& match self.sid_num() {
            Some(n) => post.plan() == seq![StepV::Call("flows.list"@, seq![JV::Str(sdec(n))], Then::Flows)]
                + self.plan(),
            None => post.todo == self.todo,
        }
    }

    /// Asks for the captured flows of the box.
    pub fn load_flows(&mut self)
        ensures
            old(self).load_flows_v(*final(self)),
    {
        self.side.flows = FlowList { rows: Vec::new(), sel: 0, detail: String::new(), frame: 0 };
        self.ui.right_scroll = 0;
        match self.cur_sid_i64() {
            Some(n) => {
                self.first_call("flows.list", list1(Json::Str(decimal_signed(n))), Then::Flows);
            },
            None => {},
        }
    }

    /// What the captured flows change.
    pub open spec fn flows_reply_v(self, r: Result<JV, Seq<char>>, post: App) -> bool {
        let rows = match r {
            Ok(j) => if j.flag("ok"@) { j.get_arr("flows"@) } else { None },
            Err(_) => None,
        };
        let said = match r {
            Ok(j) => if j.flag("ok"@) { None } else { j.get_str("error"@) },
            Err(e) => Some(e),
        };
        &&& post == (App {
            side: (Side { flows: (FlowList { rows: post.side.flows.rows, ..self.side.flows }), ..self.side }),
            ui: (Ui { status: post.ui.status, ..self.ui }),
            todo: post.todo,
            ..self
        })
        &&& post.plan() == seq![StepV::Op(Op::LoadFlowDetail)] + self.plan()
        &&& match rows {
            Some(a) => jvs(post.side.flows.rows@) == a,
            None => post.side.flows.rows == self.side.flows.rows,
        }
        &&& match said {
            Some(e) => post.ui.status@ == "flows.list: "@ + e,
            None => post.ui.status == self.ui.status,
        }
    }

    /// Takes in the captured flows.
    pub fn flows_reply(&mut self, r: Result<Json, String>)
        ensures
            old(self).flows_reply_v(rep_v(r), *final(self)),
    {
        self.first_op(Op::LoadFlowDetail);
        let said: Option<String> = match r {
            Ok(j) => {
                if j.flag("ok") {
                    match rows_under(&j, "flows") {
                        Some(v) => {
                            self.side.flows.rows = v;
                        },
                        None => {},
                    }
                    None
                } else {
                    match j.get_str("error") {
                        Some(e) => Some(own(e)),
                        None => None,
                    }
                }
            },
            Err(e) => Some(e),
        };
        match said {
            Some(e) => {
                let s: String = own("flows.list: ").concat(e.as_str());
                self.say(s.as_str());
            },
            None => {},
        }
    }

    /// The call that decodes a frame.
    pub open spec fn frame_call(self, frame: Option<int>, then: Then) -> Seq<StepV> {
        match (self.sid_num(), frame) {
            (Some(n), Some(f)) => seq![StepV::Call("flows.detail"@, seq![JV::Str(sdec(n)), JV::Int(f)], then)],
            _ => Seq::empty(),
        }
    }

    /// The change that `load_flow_detail` makes.
    pub open spec fn load_flow_detail_v(self, post: App) -> bool {
        &&& (post == (App {
                side: (Side { flows: post.side.flows, ..self.side }),
                todo: post.todo,
                ..self
            }))
        &&& (self.sid_num() is Some ==> looking_up(self.side.flows, post.side.flows))
        &&& (self.sid_num() is None ==> post.side.flows == self.side.flows)
        &&& (post.plan() == self.frame_call(frame_wanted(self.side.flows), Then::FlowDetail)
                + self.plan())
    }

    /// Asks for the decoded text of the flow at the cursor, unless it is there.
    pub fn load_flow_detail(&mut self)
        ensures
            old(self).load_flow_detail_v(*final(self)),
    {
        let ghost orig = *self;
        match self.cur_sid_i64() {
            Some(n) => {
                match self.side.flows.look_up() {
                    Some(f) => {
                        self.first_call(
                            "flows.detail",
                            list2(Json::Str(decimal_signed(n)), Json::whole(f)),
                            Then::FlowDetail,
                        );
                    },
                    None => {},
                }
            },
            None => {},
        }
        assert(self.plan() =~= orig.frame_call(frame_wanted(orig.side.flows), Then::FlowDetail) + orig.plan());
    }

    /// The change that `flow_detail_reply` makes.
    pub open spec fn flow_detail_reply_v(self, r: Result<Json, String>, post: App) -> bool {
        &&& (post.side.flows.detail@ == frame_text(rep_v(r)))
        &&& (post == (App {
                side: (Side {
                    flows: (FlowList { detail: post.side.flows.detail, ..self.side.flows }),
                    ..self.side
                }),
                ..self
            }))
    }

    /// Takes in the decoded text of a flow.
    pub fn flow_detail_reply(&mut self, r: Result<Json, String>)
        ensures
            old(self).flow_detail_reply_v(r, *final(self)),
    {
        self.side.flows.detail = text_of_frame(r);
    }

    /// The stream of the flow at the cursor.
    pub open spec fn flow_stream(self) -> Option<int> {
        let l = self.side.flows;
        if l.sel < l.rows@.len() { Some(l.rows@[l.sel as int]@.i64_or("stream"@, -1)) } else { None }
    }

    /// The packets of a stream of a box are there.
    pub open spec fn holds_packets(self, n: int, stream: int) -> bool {
        &&& self.side.packets_stream == stream
        &&& self.side.packets_sid == Some(n as i64)
        &&& self.side.packets.rows@.len() > 0
    }

    /// What going from a flow to the packets of its stream changes. Packets that are there are
    /// shown as they are, with the cursor on the frame of the flow.
    pub open spec fn open_packets_v(self, post: App) -> bool {
        match (self.sid_num(), self.flow_stream()) {
            (Some(n), Some(stream)) => if stream < 0 {
                self.says(post, "no tcp.stream for that flow"@)
            } else if self.holds_packets(n, stream) {
                let want = frame_at(self.side.flows)->0;
                (App {
                    side: (Side {
                        packets: (FlowList {
                            sel: match frame_row(jvs(self.side.packets.rows@), want, 0) {
                                Some(i) => if want > 0 { i as usize } else { 0 },
                                None => 0,
                            },
                            ..self.side.packets
                        }),
                        ..self.side
                    }),
                    ui: (Ui { right_scroll: 0, focus: Pane::Packets, ..self.ui }),
                    ..self
                }).planned(seq![StepV::Op(Op::LoadPacketDetail)], post)
            } else {
                &&& post.side.packets.rows@.len() == 0
                &&& post.side.packets.detail@.len() == 0
                &&& post == (App {
                    side: (Side {
                        packets: (FlowList {
                            rows: post.side.packets.rows,
                            sel: 0,
                            detail: post.side.packets.detail,
                            frame: 0,
                        }),
                        packets_stream: stream as i64,
                        packets_sid: Some(n as i64),
                        ..self.side
                    }),
                    ui: (Ui { right_scroll: 0, ..self.ui }),
                    todo: post.todo,
                    ..self
                })
                &&& post.plan() == seq![
                    StepV::Call(
                        "flows.packets"@,
                        seq![JV::Str(sdec(n)), JV::Int(stream)],
                        Then::Packets(frame_at(self.side.flows)->0 as u64),
                    ),
                ] + self.plan()
            },
            _ => post == self,
        }
    }

    /// Shows the packets that are there, with the cursor on a frame.
    fn show_packets(&mut self, want: u64)
        ensures
            (App {
                side: (Side {
                    packets: (FlowList {
                        sel: match frame_row(jvs(old(self).side.packets.rows@), want as int, 0) {
                            Some(i) => if want > 0 { i as usize } else { 0 },
                            None => 0,
                        },
                        ..old(self).side.packets
                    }),
                    ..old(self).side
                }),
                ui: (Ui { right_scroll: 0, focus: Pane::Packets, ..old(self).ui }),
                ..*old(self)
            }).planned(seq![StepV::Op(Op::LoadPacketDetail)], *final(self)),
    {
        self.side.packets.sel = match row_of_frame(&self.side.packets.rows, want) {
            Some(i) => if want > 0 { i } else { 0 },
            None => 0,
        };
        self.ui.right_scroll = 0;
        self.ui.focus = Pane::Packets;
        self.first_op(Op::LoadPacketDetail);
    }

    /// Goes to the packets of the stream of the flow at the cursor, and asks for them where they are
    /// not there.
    pub fn open_packets(&mut self)
        ensures
            old(self).open_packets_v(*final(self)),
    {
        match self.cur_sid_i64() {
            Some(n) => {
                if self.side.flows.sel >= self.side.flows.rows.len() {
                    return;
                }
                let row: &Json = &self.side.flows.rows[self.side.flows.sel];
                let stream: i64 = row.i64_or("stream", -1);
                let want: u64 = row.u64_or("frame", 0);
                if stream < 0 {
                    self.say("no tcp.stream for that flow");
                    return;
                }
                if self.side.packets_stream == stream && self.side.packets_sid == Some(n) && self.side.packets.rows.len()
                    > 0 {
                    self.show_packets(want);
                    return;
                }
                self.side.packets = FlowList { rows: Vec::new(), sel: 0, detail: String::new(), frame: 0 };
                self.side.packets_stream = stream;
                self.side.packets_sid = Some(n);
                self.ui.right_scroll = 0;
                self.first_call(
                    "flows.packets",
                    list2(Json::Str(decimal_signed(n)), Json::Int(stream)),
                    Then::Packets(want),
                );
            },
            None => {},
        }
    }

    /// The packets that an answer holds.
    pub open spec fn packets_in(r: Result<JV, Seq<char>>) -> Option<Seq<JV>> {
        match r {
            Ok(j) => if j.flag("ok"@) { j.get_arr("packets"@) } else { None },
            Err(_) => None,
        }
    }

    /// What the packets of a stream change.
    pub open spec fn packets_reply_v(self, want: u64, r: Result<JV, Seq<char>>, post: App) -> bool {
        let said = match r {
            Ok(j) => if j.flag("ok"@) { None } else { Some(j.str_or("error"@, "?"@)) },
            Err(e) => Some(e),
        };
        &&& post == (App {
            side: (Side {
                packets: (FlowList {
                    rows: post.side.packets.rows,
                    sel: match frame_row(jvs(post.side.packets.rows@), want as int, 0) {
                        Some(i) => if want > 0 { i as usize } else { self.side.packets.sel },
                        None => self.side.packets.sel,
                    },
                    ..self.side.packets
                }),
                ..self.side
            }),
            ui: (Ui { status: post.ui.status, focus: Pane::Packets, ..self.ui }),
            todo: post.todo,
            ..self
        })
        &&& post.plan() == seq![StepV::Op(Op::LoadPacketDetail)] + self.plan()
        &&& match App::packets_in(r) {
            Some(a) => jvs(post.side.packets.rows@) == a,
            None => post.side.packets.rows == self.side.packets.rows,
        }
        &&& match said {
            Some(e) => post.ui.status@ == "flows.packets: "@ + e,
            None => post.ui.status == self.ui.status,
        }
    }

    /// Takes in the packets of a stream; the cursor goes to the frame that was looked at.
    pub fn packets_reply(&mut self, want: u64, r: Result<Json, String>)
        ensures
            old(self).packets_reply_v(want, rep_v(r), *final(self)),
    {
        self.first_op(Op::LoadPacketDetail);
        let said: Option<String> = match r {
            Ok(j) => {
                if j.flag("ok") {
                    match rows_under(&j, "packets") {
                        Some(v) => {
                            self.side.packets.rows = v;
                        },
                        None => {},
                    }
                    None
                } else {
                    Some(own(j.str_or("error", "?")))
                }
            },
            Err(e) => Some(e),
        };
        match said {
            Some(e) => {
                let s: String = own("flows.packets: ").concat(e.as_str());
                self.say(s.as_str());
            },
            None => {},
        }
        let at: Option<usize> = row_of_frame(&self.side.packets.rows, want);
        if want > 0 {
            match at {
                Some(i) => {
                    self.side.packets.sel = i;
                },
                None => {},
            }
        }
        self.ui.focus = Pane::Packets;
    }

    /// The change that `load_packet_detail` makes.
    pub open spec fn load_packet_detail_v(self, post: App) -> bool {
        &&& (post == (App {
                side: (Side { packets: post.side.packets, ..self.side }),
                todo: post.todo,
                ..self
            }))
        &&& (self.sid_num() is Some ==> looking_up(self.side.packets, post.side.packets))
        &&& (self.sid_num() is None ==> post.side.packets == self.side.packets)
        &&& (post.plan() == self.frame_call(frame_wanted(self.side.packets), Then::PacketDetail)
                + self.plan())
    }

    /// Asks for the decoded text of the packet at the cursor, unless it is there.
    pub fn load_packet_detail(&mut self)
        ensures
            old(self).load_packet_detail_v(*final(self)),
    {
        let ghost orig = *self;
        match self.cur_sid_i64() {
            Some(n) => {
                match self.side.packets.look_up() {
                    Some(f) => {
                        self.first_call(
                            "flows.detail",
                            list2(Json::Str(decimal_signed(n)), Json::whole(f)),
                            Then::PacketDetail,
                        );
                    },
                    None => {},
                }
            },
            None => {},
        }
        assert(self.plan() =~= orig.frame_call(frame_wanted(orig.side.packets), Then::PacketDetail) + orig.plan());
    }

    /// The change that `packet_detail_reply` makes.
    pub open spec fn packet_detail_reply_v(self, r: Result<Json, String>, post: App) -> bool {
        &&& (post.side.packets.detail@ == frame_text(rep_v(r)))
        &&& (post == (App {
                side: (Side {
                    packets: (FlowList { detail: post.side.packets.detail, ..self.side.packets }),
                    ..self.side
                }),
                ..self
            }))
    }

    /// Takes in the decoded text of a packet.
    pub fn packet_detail_reply(&mut self, r: Result<Json, String>)
        ensures
            old(self).packet_detail_reply_v(r, *final(self)),
    {
        self.side.packets.detail = text_of_frame(r);
    }

    /// Goes back from the packets to the flows.
    pub fn close_packets(&mut self)
        ensures
            *final(self) == (App {
                ui: (Ui { focus: Pane::Flows, right_scroll: 0, ..old(self).ui }),
                ..*old(self)
            }),
    {
        self.ui.focus = Pane::Flows;
        self.ui.right_scroll = 0;
    }

    /// Asks whether the engine waits for an answer.
    pub fn refresh_prompt(&mut self)
        ensures
            *final(self) == (App { todo: final(self).todo, ..*old(self) }),
            final(self).plan() == seq![StepV::Call("prompts.peek"@, Seq::empty(), Then::Prompt)] + old(self).plan(),
    {
        self.first_call("prompts.peek", list0(), Then::Prompt);
    }

    /// The change that `prompt_reply` makes.
    pub open spec fn prompt_reply_v(self, r: Result<Json, String>, post: App) -> bool {
        &&& (post == (App {
                jobs: (Jobs { prompt: post.jobs.prompt, ..self.jobs }),
                ..self
            }))
        &&& (match rep_v(r) {
                Ok(j) => if j.flag("ok"@) {
                    opt_jv(post.jobs.prompt) == asked(j)
                } else {
                    post.jobs.prompt == self.jobs.prompt
                },
                Err(_) => post.jobs.prompt == self.jobs.prompt,
            })
    }

    /// Takes in the question that the engine waits with, if any.
    pub fn prompt_reply(&mut self, r: Result<Json, String>)
        ensures
            old(self).prompt_reply_v(r, *final(self)),
    {
        match r {
            Ok(j) => {
                if j.flag("ok") {
                    self.jobs.prompt = match j.get("ask") {
                        Some(v) => match v {
                            Json::Null => None,
                            _ => Some(v.copy()),
                        },
                        None => None,
                    };
                }
            },
            Err(_) => {},
        }
    }

    /// The number of the question, and the host that it is about.
    pub open spec fn question(self) -> Option<(int, Seq<char>)> {
        match self.jobs.prompt {
            Some(p) => match p@.get_u64("id"@) {
                Some(id) => Some((id, p@.str_or("host"@, ""@))),
                None => None,
            },
            None => None,
        }
    }

    /// What answering the question changes.
    pub open spec fn answer_prompt_v(self, v: Verdict, post: App) -> bool {
        match self.question() {
            Some((id, host)) => {
                &&& post == (App { jobs: (Jobs { prompt: None, ..self.jobs }), todo: post.todo, ..self })
                &&& post.plan() == seq![
                    StepV::Call("prompts.answer"@, seq![JV::Int(id), JV::Str(verdict_name(v))], Then::Ignore),
                    StepV::Op(Op::RefreshPrompt),
                    StepV::Say(verdict_text(v, host)),
                ] + self.plan()
            },
            None => post == self,
        }
    }

    /// Answers the question of the engine.
    pub fn answer_prompt(&mut self, v: Verdict)
        ensures
            old(self).answer_prompt_v(v, *final(self)),
    {
        let ghost orig = *self;
        let q: Option<(u64, String)> = match &self.jobs.prompt {
            Some(p) => match p.get_u64("id") {
                Some(id) => Some((id, own(p.str_or("host", "")))),
                None => None,
            },
            None => None,
        };
        match q {
            Some((id, host)) => {
                let said: String = text_of_verdict(v, host.as_str());
                self.jobs.prompt = None;
                self.first_say(said.as_str());
                self.first_op(Op::RefreshPrompt);
                self.first_call("prompts.answer", list2(Json::whole(id), Json::text(name_of_verdict(v))), Then::Ignore);
                assert(self.plan() =~= seq![
                    StepV::Call(
                        "prompts.answer"@,
                        seq![JV::Int(id as int), JV::Str(verdict_name(v))],
                        Then::Ignore,
                    ),
                    StepV::Op(Op::RefreshPrompt),
                    StepV::Say(verdict_text(v, host@)),
                ] + orig.plan());
            },
            None => {},
        }
    }

    /// The steps with which the calls of models are loaded.
    pub open spec fn api_steps() -> Seq<StepV> {
        seq![StepV::ReadEndpoint, StepV::Op(Op::OfferModels), StepV::Op(Op::ApiLogRows)]
    }

    /// Loads the calls of models of the box, and how the endpoint is set up.
    pub fn load_api_logs(&mut self)
        ensures
            *final(self) == (App { todo: final(self).todo, ..*old(self) }),
            final(self).plan() == App::api_steps() + old(self).plan(),
    {
        let ghost orig = *self;
        self.first_op(Op::ApiLogRows);
        self.first_op(Op::OfferModels);
        self.first(Step::ReadEndpoint);
        assert(self.plan() =~= App::api_steps() + orig.plan());
    }

    /// The list is the one of the box at the cursor, and not empty.
    pub open spec fn is_loaded(self, l: RowList) -> bool {
        self.sid() is Some && opt_text(l.sid) == self.sid() && l.rows@.len() > 0
    }

    fn has_loaded(&self, l: &RowList) -> (r: bool)
        ensures
            r == self.is_loaded(*l),
    {
        match (self.cur_sid(), &l.sid) {
            (Some(a), Some(b)) => same(a, b.as_str()) && l.rows.len() > 0,
            _ => false,
        }
    }

    /// Loads the calls of models unless they are there.
    pub fn load_api_logs_if_needed(&mut self)
        ensures
            *final(self) == (App { todo: final(self).todo, ..*old(self) }),
            final(self).plan() == (if old(self).is_loaded(old(self).side.api) { Seq::empty() } else { App::api_steps() })
                + old(self).plan(),
    {
        let ghost orig = *self;
        if self.has_loaded(&self.side.api) {
            assert(self.plan() =~= Seq::<StepV>::empty() + orig.plan());
        } else {
            self.load_api_logs();
        }
    }

    /// The change that `api_log_rows` makes.
    pub open spec fn api_log_rows_v(self, post: App) -> bool {
        &&& (post == (App { todo: post.todo, ..self }))
        &&& (match self.sid() {
                Some(sid) => post.plan() == seq![StepV::Call("api_log"@, seq![JV::Str(sid)], Then::ApiLog)]
                    + self.plan(),
                None => post.todo == self.todo,
            })
    }

    /// Asks for the calls of models of the box.
    pub fn api_log_rows(&mut self)
        ensures
            old(self).api_log_rows_v(*final(self)),
    {
        match self.own_sid() {
            Some(s) => {
                self.first_call("api_log", list1(Json::Str(s)), Then::ApiLog);
            },
            None => {},
        }
    }

    /// What rows of the box change.
    pub open spec fn rows_reply_v(self, l: RowList, r: Result<JV, Seq<char>>, post: RowList) -> bool {
        match r {
            Ok(j) => {
                &&& jvs(post.rows@) == list_in(j)
                &&& opt_text(post.sid) == self.sid()
                &&& post == (RowList { rows: post.rows, sid: post.sid, sel: post.sel, ..l })
            },
            Err(_) => post == l,
        }
    }

    /// What is said where rows of the box could not be had.
    pub open spec fn rows_status(verb: Seq<char>, r: Result<JV, Seq<char>>) -> Option<Seq<char>> {
        match r {
            Ok(_) => None,
            Err(e) => Some(
                if holds_text(e, "unknown verb"@) {
                    "engine doesn't speak "@ + verb + " — old engine?"@
                } else {
                    verb + ": "@ + e
                },
            ),
        }
    }

    fn say_rows_failed(&mut self, verb: &str, e: &str)
        ensures
            old(self).says(*final(self), App::rows_status(verb@, Err(e@))->0),
    {
        let s: String = if contains(e, "unknown verb") {
            own("engine doesn't speak ").concat(verb).concat(" — old engine?")
        } else {
            own(verb).concat(": ").concat(e)
        };
        self.say(s.as_str());
    }

    /// The change that `api_log_reply` makes.
    pub open spec fn api_log_reply_v(self, r: Result<Json, String>, post: App) -> bool {
        &&& (post == (App {
                side: (Side { api: post.side.api, ..self.side }),
                ui: (Ui { status: post.ui.status, ..self.ui }),
                ..self
            }))
        &&& (self.rows_reply_v(self.side.api, rep_v(r), post.side.api))
        &&& (post.side.api.sel == self.side.api.sel)
        &&& (match App::rows_status("api_log"@, rep_v(r)) {
                Some(s) => post.ui.status@ == s,
                None => post.ui.status == self.ui.status,
            })
    }

    /// Takes in the calls of models of the box.
    pub fn api_log_reply(&mut self, r: Result<Json, String>)
        ensures
            old(self).api_log_reply_v(r, *final(self)),
    {
        match r {
            Ok(j) => {
                let sid: Option<String> = self.own_sid();
                self.side.api.rows = rows_in_reply(&j);
                self.side.api.sid = sid;
            },
            Err(e) => {
                self.say_rows_failed("api_log", e.as_str());
            },
        }
    }

    /// Asks for the web captures of the box.
    pub fn load_webcap(&mut self)
        ensures
            *final(self) == (App { todo: final(self).todo, ..*old(self) }),
            final(self).plan() == old(self).web_call() + old(self).plan(),
    {
        let ghost orig = *self;
        match self.own_sid() {
            Some(s) => {
                self.first_call("webcap", list1(Json::Str(s)), Then::Webcap);
            },
            None => {},
        }
        assert(self.plan() =~= orig.web_call() + orig.plan());
    }

    /// The call for the web captures of the box.
    pub open spec fn web_call(self) -> Seq<StepV> {
        match self.sid() {
            Some(sid) => seq![StepV::Call("webcap"@, seq![JV::Str(sid)], Then::Webcap)],
            None => Seq::empty(),
        }
    }

    /// Loads the web captures unless they are there.
    pub fn load_webcap_if_needed(&mut self)
        ensures
            *final(self) == (App { todo: final(self).todo, ..*old(self) }),
            final(self).plan() == (if old(self).is_loaded(old(self).side.web) {
                Seq::empty()
            } else {
                old(self).web_call()
            }) + old(self).plan(),
    {
        let ghost orig = *self;
        if self.has_loaded(&self.side.web) {
            assert(self.plan() =~= Seq::<StepV>::empty() + orig.plan());
        } else {
            self.load_webcap();
        }
    }

    /// The change that `webcap_reply` makes.
    pub open spec fn webcap_reply_v(self, r: Result<Json, String>, post: App) -> bool {
        &&& (post == (App {
                side: (Side { web: post.side.web, ..self.side }),
                ui: (Ui { status: post.ui.status, ..self.ui }),
                ..self
            }))
        &&& (self.rows_reply_v(self.side.web, rep_v(r), post.side.web))
        &&& (r is Ok ==> post.side.web.sel as int == (if self.side.web.sel >= post.side.web.rows@.len() {
                less_one(post.side.web.rows@.len() as int)
            } else {
                self.side.web.sel as int
            }))
        &&& (match App::rows_status("webcap"@, rep_v(r)) {
                Some(s) => post.ui.status@ == s,
                None => post.ui.status == self.ui.status,
            })
    }

    /// Takes in the web captures of the box; the cursor stays among them.
    pub fn webcap_reply(&mut self, r: Result<Json, String>)
        ensures
            old(self).webcap_reply_v(r, *final(self)),
    {
        match r {
            Ok(j) => {
                let sid: Option<String> = self.own_sid();
                self.side.web.rows = rows_in_reply(&j);
                self.side.web.sid = sid;
                let n: usize = self.side.web.rows.len();
                if self.side.web.sel >= n {
                    self.side.web.sel = if n > 0 { n - 1 } else { 0 };
                }
            },
            Err(e) => {
                self.say_rows_failed("webcap", e.as_str());
            },
        }
    }
}

/// Going back to the packets of a stream asks for nothing: they are as they were.
pub proof fn law_packets_are_shown_again(a: App, b: App, n: int, stream: int)
    requires
        a.sid_num() == Some(n),
        a.flow_stream() == Some(stream),
        stream >= 0,
        a.holds_packets(n, stream),
        a.open_packets_v(b),
    ensures
        b.ui.focus == Pane::Packets,
        b.side.packets.rows == a.side.packets.rows,
        b.side.packets.detail == a.side.packets.detail,
        b.side.flows == a.side.flows,
        b.plan() == seq![StepV::Op(Op::LoadPacketDetail)] + a.plan(),
{
}

} // verus!
