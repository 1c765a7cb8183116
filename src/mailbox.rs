//! One SMU mailbox: a command/response/argument register triple and the
//! request/response round carried over it.
//!
//! A round is a state machine. [`SendRound::next`] names the register
//! operation to perform next (or the outcome), and [`SendRound::advance`]
//! records that it was performed, with the value read if it was a read.
use vstd::prelude::*;
use crate::error::SmuError;

verus! {

/// Status byte of a finished SMU request.
#[derive(Debug, Clone, Copy, PartialEq, Eq, Structural)]
pub enum SmuStatus {
    Success,
    Failed,
    UnknownCmd,
    RejectedPrereq,
    RejectedBusy,
}

impl SmuStatus {
    /// The byte that stands for this status in the response register.
    pub open spec fn byte(self) -> u8 {
        match self {
            SmuStatus::Success => 0x01,
            SmuStatus::Failed => 0xFF,
            SmuStatus::UnknownCmd => 0xFE,
            SmuStatus::RejectedPrereq => 0xFD,
            SmuStatus::RejectedBusy => 0xFC,
        }
    }

    /// The status that a response register value stands for, by its low byte;
    /// `None` while the firmware has not answered.
    pub open spec fn of_register(value: u32) -> Option<SmuStatus> {
        let b = value % 256;
        if b == 0x01 {
            Some(SmuStatus::Success)
        } else if b == 0xFF {
            Some(SmuStatus::Failed)
        } else if b == 0xFE {
            Some(SmuStatus::UnknownCmd)
        } else if b == 0xFD {
            Some(SmuStatus::RejectedPrereq)
        } else if b == 0xFC {
            Some(SmuStatus::RejectedBusy)
        } else {
            None
        }
    }

    /// Reads a response register value as a status.
    pub fn from_u32(value: u32) -> (r: Option<Self>)
        ensures
            r == Self::of_register(value),
            r matches Some(s) ==> s.byte() as u32 == value % 256,
    {
        let b = value % 256;
        if b == 0x01 {
            Some(SmuStatus::Success)
        } else if b == 0xFF {
            Some(SmuStatus::Failed)
        } else if b == 0xFE {
            Some(SmuStatus::UnknownCmd)
        } else if b == 0xFD {
            Some(SmuStatus::RejectedPrereq)
        } else if b == 0xFC {
            Some(SmuStatus::RejectedBusy)
        } else {
            None
        }
    }

    /// The status byte.
    pub fn code(&self) -> (r: u8)
        ensures
            r == self.byte(),
    {
        match self {
            SmuStatus::Success => 0x01,
            SmuStatus::Failed => 0xFF,
            SmuStatus::UnknownCmd => 0xFE,
            SmuStatus::RejectedPrereq => 0xFD,
            SmuStatus::RejectedBusy => 0xFC,
        }
    }
}

/// One 32-bit access to an SMU register.
#[derive(Debug, Clone, Copy, PartialEq, Eq, Structural)]
pub enum RegOp {
    Write { reg: u32, value: u32 },
    Read { reg: u32 },
}

/// What a state machine asks for next: a register operation, or its outcome.
#[derive(Debug, PartialEq, Eq)]
pub enum Step<T> {
    Op(RegOp),
    Done(Result<T, SmuError>),
}

/// SMU register addresses of one queue; the high argument register follows
/// the low one at `arg + 4`.
#[derive(Debug, Clone, Copy, PartialEq, Eq, Structural)]
pub struct QueueRegs {
    pub cmd: u32,
    pub rsp: u32,
    pub arg: u32,
}

impl QueueRegs {
    pub open spec fn wf(self) -> bool {
        self.arg <= 0xFFFF_FFFB
    }
}

/// A mailbox: its register triple and how many response reads a request may take.
#[derive(Debug, Clone, Copy, PartialEq, Eq, Structural)]
pub struct Bc250Mailbox {
    pub regs: QueueRegs,
    pub timeout: u32,
}

/// One request/response exchange on a mailbox.
#[derive(Debug, Clone, Copy, PartialEq, Eq, Structural)]
pub struct SendRound {
    pub regs: QueueRegs,
    pub msg_id: u32,
    pub arg: u32,
    pub arg_high: u32,
    /// How many of the four request writes have been performed.
    pub writes_done: u32,
    /// Response reads that may still be made.
    pub remaining: u32,
    /// The status read back, once one was recognised.
    pub reply: Option<SmuStatus>,
}

impl Bc250Mailbox {
    pub open spec fn wf(self) -> bool {
        self.regs.wf()
    }

    pub fn new(cmd_addr: u32, rsp_addr: u32, arg_addr: u32, timeout: u32) -> (r: Self)
        requires
            arg_addr <= 0xFFFF_FFFB,
        ensures
            r.wf(),
            r.regs == (QueueRegs { cmd: cmd_addr, rsp: rsp_addr, arg: arg_addr }),
            r.timeout == timeout,
    {
        Bc250Mailbox { regs: QueueRegs { cmd: cmd_addr, rsp: rsp_addr, arg: arg_addr }, timeout }
    }

    pub open spec fn round(self, msg_id: u32, arg: u32, arg_high: Option<u32>) -> SendRound {
        SendRound {
            regs: self.regs,
            msg_id,
            arg,
            arg_high: match arg_high {
                Some(h) => h,
                None => 0,
            },
            writes_done: 0,
            remaining: self.timeout,
            reply: None,
        }
    }

    /// Starts a request: message `msg_id` with argument `arg` (and `arg_high`
    /// in the high argument register, 0 when absent).
    pub fn send(&self, msg_id: u32, arg: u32, arg_high: Option<u32>) -> (r: SendRound)
        requires
            self.wf(),
        ensures
            r == self.round(msg_id, arg, arg_high),
            r.wf(),
    {
        let h = match arg_high {
            Some(h) => h,
            None => 0,
        };
        SendRound {
            regs: self.regs,
            msg_id,
            arg,
            arg_high: h,
            writes_done: 0,
            remaining: self.timeout,
            reply: None,
        }
    }

    /// The read that fetches the low argument register.
    pub fn read_arg(&self) -> (r: RegOp)
        ensures
            r == (RegOp::Read { reg: self.regs.arg }),
    {
        RegOp::Read { reg: self.regs.arg }
    }

    /// The read that fetches the high argument register.
    pub fn read_arg_high(&self) -> (r: RegOp)
        requires
            self.wf(),
        ensures
            r == (RegOp::Read { reg: (self.regs.arg + 4) as u32 }),
    {
        RegOp::Read { reg: self.regs.arg + 4 }
    }
}

impl SendRound {
    pub open spec fn wf(self) -> bool {
        &&& self.regs.wf()
        &&& self.writes_done <= 4
        &&& self.reply is Some ==> self.writes_done == 4
    }

    /// The `k`-th request write: clear the response, then the low and high
    /// argument, then the command.
    pub open spec fn write_op(self, k: u32) -> RegOp {
        if k == 0 {
            RegOp::Write { reg: self.regs.rsp, value: 0 }
        } else if k == 1 {
            RegOp::Write { reg: self.regs.arg, value: self.arg }
        } else if k == 2 {
            RegOp::Write { reg: (self.regs.arg + 4) as u32, value: self.arg_high }
        } else {
            RegOp::Write { reg: self.regs.cmd, value: self.msg_id }
        }
    }

    pub open spec fn step(self) -> Step<SmuStatus> {
        if self.writes_done < 4 {
            Step::Op(self.write_op(self.writes_done))
        } else if self.reply is Some {
            Step::Done(Ok(self.reply->Some_0))
        } else if self.remaining == 0 {
            Step::Done(Err(SmuError::Timeout))
        } else {
            Step::Op(RegOp::Read { reg: self.regs.rsp })
        }
    }

    /// The state once the pending operation was performed; `value` is what a
    /// read returned and is ignored after a write.
    pub open spec fn after(self, value: u32) -> SendRound {
        if self.writes_done < 4 {
            SendRound { writes_done: (self.writes_done + 1) as u32, ..self }
        } else {
            SendRound {
                remaining: (self.remaining - 1) as u32,
                reply: SmuStatus::of_register(value),
                ..self
            }
        }
    }

    pub open spec fn measure(self) -> nat {
        (if self.writes_done < 4 { 4 - self.writes_done } else { 0 }) as nat + self.remaining as nat
    }

    /// The operations a round performs when its response reads return
    /// `replies` in turn, until it is done or `replies` runs out.
    pub open spec fn ops(self, replies: Seq<u32>) -> Seq<RegOp>
        decreases self.measure(), replies.len(),
    {
        if self.writes_done < 4 {
            seq![self.write_op(self.writes_done)] + self.after(0).ops(replies)
        } else if self.reply is Some || self.remaining == 0 || replies.len() == 0 {
            Seq::empty()
        } else {
            seq![RegOp::Read { reg: self.regs.rsp }] + self.after(replies[0]).ops(replies.drop_first())
        }
    }

    /// The state a round reaches on `replies`, as in [`SendRound::ops`].
    pub open spec fn last(self, replies: Seq<u32>) -> SendRound
        decreases self.measure(), replies.len(),
    {
        if self.writes_done < 4 {
            self.after(0).last(replies)
        } else if self.reply is Some || self.remaining == 0 || replies.len() == 0 {
            self
        } else {
            self.after(replies[0]).last(replies.drop_first())
        }
    }

    /// What to do next. A finished round has either a recognised status or
    /// timed out.
    pub fn next(&self) -> (r: Step<SmuStatus>)
        requires
            self.wf(),
        ensures
            r == self.step(),
            r matches Step::Done(res) ==> (res is Ok || res == Err::<SmuStatus, SmuError>(SmuError::Timeout)),
    {
        if self.writes_done < 4 {
            let op = if self.writes_done == 0 {
                RegOp::Write { reg: self.regs.rsp, value: 0 }
            } else if self.writes_done == 1 {
                RegOp::Write { reg: self.regs.arg, value: self.arg }
            } else if self.writes_done == 2 {
                RegOp::Write { reg: self.regs.arg + 4, value: self.arg_high }
            } else {
                RegOp::Write { reg: self.regs.cmd, value: self.msg_id }
            };
            Step::Op(op)
        } else {
            match self.reply {
                Some(s) => Step::Done(Ok(s)),
                None => {
                    if self.remaining == 0 {
                        Step::Done(Err(SmuError::Timeout))
                    } else {
                        Step::Op(RegOp::Read { reg: self.regs.rsp })
                    }
                },
            }
        }
    }

    /// Records that the operation named by `next` was performed; `value` is
    /// what a read returned.
    pub fn advance(&mut self, value: u32)
        requires
            old(self).wf(),
            old(self).step() is Op,
        ensures
            *final(self) == old(self).after(value),
            final(self).wf(),
    {
        if self.writes_done < 4 {
            self.writes_done = self.writes_done + 1;
        } else {
            self.remaining = self.remaining - 1;
            self.reply = SmuStatus::from_u32(value);
        }
    }
}

/// Once the request is written, a round only reads the response register.
pub proof fn lemma_round_polls_response(s: SendRound, replies: Seq<u32>)
    requires
        s.wf(),
        s.writes_done == 4,
    ensures
        forall|i: int| 0 <= i < s.ops(replies).len() ==> #[trigger] s.ops(replies)[i] == (RegOp::Read { reg: s.regs.rsp }),
    decreases s.remaining,
{
    if !(s.reply is Some || s.remaining == 0 || replies.len() == 0) {
        let t = s.after(replies[0]);
        lemma_round_polls_response(t, replies.drop_first());
    }
}

/// A request writes `rsp := 0`, `arg := arg`, `arg + 4 := arg_high` and
/// `cmd := msg_id`, in that order and before anything else, and then only
/// polls the response register: no other access of the round comes between.
pub proof fn lemma_request_writes_first(
    mb: Bc250Mailbox,
    msg_id: u32,
    arg: u32,
    arg_high: Option<u32>,
    replies: Seq<u32>,
)
    requires
        mb.wf(),
    ensures
        ({
            let s = mb.round(msg_id, arg, arg_high);
            let ops = s.ops(replies);
            &&& ops.len() >= 4
            &&& ops[0] == (RegOp::Write { reg: mb.regs.rsp, value: 0 })
            &&& ops[1] == (RegOp::Write { reg: mb.regs.arg, value: arg })
            &&& ops[2] == (RegOp::Write { reg: (mb.regs.arg + 4) as u32, value: s.arg_high })
            &&& ops[3] == (RegOp::Write { reg: mb.regs.cmd, value: msg_id })
            &&& forall|i: int| 4 <= i < ops.len() ==> #[trigger] ops[i] == (RegOp::Read { reg: mb.regs.rsp })
        }),
{
    let s0 = mb.round(msg_id, arg, arg_high);
    let s1 = s0.after(0);
    let s2 = s1.after(0);
    let s3 = s2.after(0);
    let s4 = s3.after(0);
    assert(s0.ops(replies) == seq![s0.write_op(0)] + s1.ops(replies));
    assert(s1.ops(replies) == seq![s1.write_op(1)] + s2.ops(replies));
    assert(s2.ops(replies) == seq![s2.write_op(2)] + s3.ops(replies));
    assert(s3.ops(replies) == seq![s3.write_op(3)] + s4.ops(replies));
    lemma_round_polls_response(s4, replies);
    let ops = s0.ops(replies);
    assert forall|i: int| 4 <= i < ops.len() implies #[trigger] ops[i] == (RegOp::Read { reg: mb.regs.rsp }) by {
        assert(ops[i] == s4.ops(replies)[i - 4]);
    }
}

/// Polling with no recognised status among the replies reads the response
/// register `remaining` times, then times out.
pub proof fn lemma_poll_exhausts(s: SendRound, replies: Seq<u32>)
    requires
        s.wf(),
        s.writes_done == 4,
        s.reply is None,
        replies.len() >= s.remaining,
        forall|i: int| 0 <= i < replies.len() ==> SmuStatus::of_register(#[trigger] replies[i]) is None,
    ensures
        s.ops(replies).len() == s.remaining,
        s.last(replies).step() == Step::<SmuStatus>::Done(Err(SmuError::Timeout)),
    decreases s.remaining,
{
    if s.remaining > 0 {
        let t = s.after(replies[0]);
        let rest = replies.drop_first();
        assert forall|i: int| 0 <= i < rest.len() implies SmuStatus::of_register(#[trigger] rest[i]) is None by {
            assert(rest[i] == replies[i + 1]);
        }
        lemma_poll_exhausts(t, rest);
    }
}

/// With a response register that never holds a recognised status, a request
/// ends in `Timeout` after exactly `timeout` reads of it.
pub proof fn lemma_silent_firmware_times_out(
    mb: Bc250Mailbox,
    msg_id: u32,
    arg: u32,
    arg_high: Option<u32>,
    replies: Seq<u32>,
)
    requires
        mb.wf(),
        replies.len() >= mb.timeout,
        forall|i: int| 0 <= i < replies.len() ==> SmuStatus::of_register(#[trigger] replies[i]) is None,
    ensures
        ({
            let s = mb.round(msg_id, arg, arg_high);
            &&& s.ops(replies).len() == 4 + mb.timeout
            &&& s.last(replies).step() == Step::<SmuStatus>::Done(Err(SmuError::Timeout))
        }),
{
    let s0 = mb.round(msg_id, arg, arg_high);
    let s1 = s0.after(0);
    let s2 = s1.after(0);
    let s3 = s2.after(0);
    let s4 = s3.after(0);
    assert(s0.ops(replies) == seq![s0.write_op(0)] + s1.ops(replies));
    assert(s1.ops(replies) == seq![s1.write_op(1)] + s2.ops(replies));
    assert(s2.ops(replies) == seq![s2.write_op(2)] + s3.ops(replies));
    assert(s3.ops(replies) == seq![s3.write_op(3)] + s4.ops(replies));
    assert(s0.last(replies) == s1.last(replies));
    assert(s1.last(replies) == s2.last(replies));
    assert(s2.last(replies) == s3.last(replies));
    assert(s3.last(replies) == s4.last(replies));
    lemma_poll_exhausts(s4, replies);
}

/// Polling stops at the first reply that holds a recognised status, within
/// the budget, and the round returns that status.
pub proof fn lemma_poll_answered(s: SendRound, replies: Seq<u32>, k: int)
    requires
        s.wf(),
        s.writes_done == 4,
        s.reply is None,
        0 <= k < replies.len(),
        k < s.remaining,
        SmuStatus::of_register(replies[k]) is Some,
        forall|i: int| 0 <= i < k ==> SmuStatus::of_register(#[trigger] replies[i]) is None,
    ensures
        s.ops(replies).len() == k + 1,
        s.last(replies).step() == Step::<SmuStatus>::Done(Ok(SmuStatus::of_register(replies[k])->Some_0)),
    decreases k,
{
    let t = s.after(replies[0]);
    let rest = replies.drop_first();
    assert(s.ops(replies) == seq![RegOp::Read { reg: s.regs.rsp }] + t.ops(rest));
    assert(s.last(replies) == t.last(rest));
    if k > 0 {
        assert(SmuStatus::of_register(replies[0]) is None);
        assert forall|i: int| 0 <= i < k - 1 implies SmuStatus::of_register(#[trigger] rest[i]) is None by {
            assert(rest[i] == replies[i + 1]);
        }
        assert(rest[k - 1] == replies[k]);
        lemma_poll_answered(t, rest, k - 1);
    } else {
        assert(t.reply == SmuStatus::of_register(replies[0]));
        assert(t.ops(rest) == Seq::<RegOp>::empty());
        assert(t.last(rest) == t);
    }
}

/// A request whose `k`-th response read (counting from 0, within the budget)
/// is the first to hold a recognised status makes `k + 1` reads after its four
/// writes and returns that status.
pub proof fn lemma_request_answered(
    mb: Bc250Mailbox,
    msg_id: u32,
    arg: u32,
    arg_high: Option<u32>,
    replies: Seq<u32>,
    k: int,
)
    requires
        mb.wf(),
        0 <= k < replies.len(),
        k < mb.timeout,
        SmuStatus::of_register(replies[k]) is Some,
        forall|i: int| 0 <= i < k ==> SmuStatus::of_register(#[trigger] replies[i]) is None,
    ensures
        ({
            let s = mb.round(msg_id, arg, arg_high);
            &&& s.ops(replies).len() == 4 + k + 1
            &&& s.last(replies).step() == Step::<SmuStatus>::Done(Ok(SmuStatus::of_register(replies[k])->Some_0))
        }),
{
    let s0 = mb.round(msg_id, arg, arg_high);
    let s1 = s0.after(0);
    let s2 = s1.after(0);
    let s3 = s2.after(0);
    let s4 = s3.after(0);
    assert(s0.ops(replies) == seq![s0.write_op(0)] + s1.ops(replies));
    assert(s1.ops(replies) == seq![s1.write_op(1)] + s2.ops(replies));
    assert(s2.ops(replies) == seq![s2.write_op(2)] + s3.ops(replies));
    assert(s3.ops(replies) == seq![s3.write_op(3)] + s4.ops(replies));
    assert(s0.last(replies) == s1.last(replies));
    assert(s1.last(replies) == s2.last(replies));
    assert(s2.last(replies) == s3.last(replies));
    assert(s3.last(replies) == s4.last(replies));
    lemma_poll_answered(s4, replies, k);
}

} // verus!
