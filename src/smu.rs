//! The SMU facade: five mailboxes, the queue-0 gate, and the messages the
//! governor uses.
//!
//! Each message is returned as a [`MessageCall`], a state machine that the
//! caller drives against the hardware (or a mock) exactly like a
//! [`SendRound`], and whose outcome is the decoded reply.
use vstd::prelude::*;
use crate::codec::{mv_of_vid, mv_to_vid, vid_of_mv, vid_to_mv};
use crate::error::SmuError;
use crate::governor::FreqChange;
use crate::mailbox::{Bc250Mailbox, QueueRegs, RegOp, SendRound, SmuStatus, Step};

verus! {

/// Number of SMU queues.
pub const QUEUE_COUNT: u8 = 5;

/// Register triple of each queue `0..5`.
pub open spec fn queue_regs(q: int) -> QueueRegs {
    if q == 0 {
        QueueRegs { cmd: 0x03B10A08, rsp: 0x03B10A68, arg: 0x03B10A48 }
    } else if q == 1 {
        QueueRegs { cmd: 0x03B10A00, rsp: 0x03B10A60, arg: 0x03B10A40 }
    } else if q == 2 {
        QueueRegs { cmd: 0x03B10528, rsp: 0x03B10564, arg: 0x03B10998 }
    } else if q == 3 {
        QueueRegs { cmd: 0x03B10A20, rsp: 0x03B10A80, arg: 0x03B10A88 }
    } else {
        QueueRegs { cmd: 0x03B10A24, rsp: 0x03B10A84, arg: 0x03B10A8C }
    }
}

/// The register triple of queue `q`, for `q < 5`.
pub fn default_queue_regs(q: u8) -> (r: QueueRegs)
    requires
        q < QUEUE_COUNT,
    ensures
        r == queue_regs(q as int),
        r.wf(),
{
    if q == 0 {
        QueueRegs { cmd: 0x03B10A08, rsp: 0x03B10A68, arg: 0x03B10A48 }
    } else if q == 1 {
        QueueRegs { cmd: 0x03B10A00, rsp: 0x03B10A60, arg: 0x03B10A40 }
    } else if q == 2 {
        QueueRegs { cmd: 0x03B10528, rsp: 0x03B10564, arg: 0x03B10998 }
    } else if q == 3 {
        QueueRegs { cmd: 0x03B10A20, rsp: 0x03B10A80, arg: 0x03B10A88 }
    } else {
        QueueRegs { cmd: 0x03B10A24, rsp: 0x03B10A84, arg: 0x03B10A8C }
    }
}

/// How the argument register is turned into a reply.
#[derive(Debug, Clone, Copy, PartialEq, Eq, Structural)]
pub enum Decoder {
    /// The register value as it is.
    Raw,
    /// The register holds a VID; the reply is its voltage in mV.
    Millivolts,
}

impl Decoder {
    pub open spec fn apply(self, value: u32) -> u32 {
        match self {
            Decoder::Raw => value,
            Decoder::Millivolts => mv_of_vid(value as int) as u32,
        }
    }

    pub fn decode(&self, value: u32) -> (r: u32)
        ensures
            r == self.apply(value),
    {
        match self {
            Decoder::Raw => value,
            Decoder::Millivolts => vid_to_mv(value),
        }
    }
}

/// One facade message: a mailbox round, the status check, and the read of
/// the argument register that a decoded reply needs.
#[derive(Debug, Clone, Copy, PartialEq, Eq, Structural)]
pub struct MessageCall {
    pub queue: u8,
    pub msg_id: u32,
    pub check_status: bool,
    pub decode: Option<Decoder>,
    pub round: SendRound,
    /// The argument register, once read.
    pub arg_value: Option<u32>,
}

impl MessageCall {
    pub open spec fn wf(self) -> bool {
        self.round.wf()
    }

    /// The error for a non-Ok status on a checked message.
    pub open spec fn status_error(self, s: SmuStatus) -> SmuError {
        SmuError::SmuStatus { status: s.byte(), queue: self.queue, msg: (self.msg_id % 256) as u8 }
    }

    pub open spec fn step(self) -> Step<u32> {
        match self.round.step() {
            Step::Op(op) => Step::Op(op),
            Step::Done(Err(e)) => Step::Done(Err(e)),
            Step::Done(Ok(s)) => {
                if self.check_status && s != SmuStatus::Success {
                    Step::Done(Err(self.status_error(s)))
                } else {
                    match self.decode {
                        None => Step::Done(Ok(s.byte() as u32)),
                        Some(d) => match self.arg_value {
                            None => Step::Op(RegOp::Read { reg: self.round.regs.arg }),
                            Some(v) => Step::Done(Ok(d.apply(v))),
                        },
                    }
                }
            },
        }
    }

    /// The state once the pending operation was performed; `value` is what a
    /// read returned.
    pub open spec fn after(self, value: u32) -> MessageCall {
        if self.round.step() is Op {
            MessageCall { round: self.round.after(value), ..self }
        } else {
            MessageCall { arg_value: Some(value), ..self }
        }
    }

    /// What to do next: a register operation, or the reply (the decoded
    /// argument register, or else the status byte).
    pub fn next(&self) -> (r: Step<u32>)
        requires
            self.wf(),
        ensures
            r == self.step(),
    {
        match self.round.next() {
            Step::Op(op) => Step::Op(op),
            Step::Done(Err(e)) => Step::Done(Err(e)),
            Step::Done(Ok(s)) => {
                if self.check_status && s != SmuStatus::Success {
                    Step::Done(
                        Err(SmuError::SmuStatus { status: s.code(), queue: self.queue, msg: (self.msg_id % 256) as u8 }),
                    )
                } else {
                    match self.decode {
                        None => Step::Done(Ok(s.code() as u32)),
                        Some(d) => match self.arg_value {
                            None => Step::Op(RegOp::Read { reg: self.round.regs.arg }),
                            Some(v) => Step::Done(Ok(d.decode(v))),
                        },
                    }
                }
            },
        }
    }

    /// Records that the operation named by `next` was performed; `value` is
    /// what a read returned.
    pub fn advance(&mut self, value: u32)
        requires
            old(self).wf(),
            old(self).step() is Op,
        ensures
            *final(self) == old(self).after(value),
            final(self).wf(),
    {
        if self.round.writes_done < 4 || (self.round.reply.is_none() && self.round.remaining > 0) {
            self.round.advance(value);
        } else {
            self.arg_value = Some(value);
        }
    }
}

/// The SMU facade: the five mailboxes and the queue-0 gate.
pub struct Bc250Smu {
    pub allow_queue0: bool,
    pub timeout: u32,
    pub queues: Vec<Bc250Mailbox>,
}

impl Bc250Smu {
    pub open spec fn mailbox(self, q: int) -> Bc250Mailbox {
        Bc250Mailbox { regs: queue_regs(q), timeout: self.timeout }
    }

    pub open spec fn wf(self) -> bool {
        &&& self.queues@.len() == QUEUE_COUNT
        &&& forall|q: int| 0 <= q < QUEUE_COUNT ==> #[trigger] self.queues@[q] == self.mailbox(q)
    }

    /// The mailbox that serves queue `q`, or why there is none to use.
    pub open spec fn lookup(self, q: u8) -> Result<Bc250Mailbox, SmuError> {
        if q == 0 && !self.allow_queue0 {
            Err(SmuError::Queue0Disabled)
        } else if q < QUEUE_COUNT {
            Ok(self.mailbox(q as int))
        } else {
            Err(SmuError::QueueNotConfigured(q))
        }
    }

    /// The call that sends `msg_id` on queue `q`.
    pub open spec fn call(
        self,
        q: u8,
        msg_id: u32,
        arg: u32,
        arg_high: Option<u32>,
        decode: Option<Decoder>,
        check_status: bool,
    ) -> MessageCall {
        MessageCall {
            queue: q,
            msg_id,
            check_status,
            decode,
            round: self.mailbox(q as int).round(msg_id, arg, arg_high),
            arg_value: None,
        }
    }

    /// A facade with the five queues, each polling its response register at
    /// most `timeout` times. Queue 0 is usable only with `allow_queue0`.
    pub fn new(allow_queue0: bool, timeout: u32) -> (r: Self)
        ensures
            r.wf(),
            r.allow_queue0 == allow_queue0,
            r.timeout == timeout,
    {
        let mut queues: Vec<Bc250Mailbox> = Vec::new();
        let mut q: u8 = 0;
        while q < QUEUE_COUNT
            invariant
                q <= QUEUE_COUNT,
                queues@.len() == q,
                forall|i: int| 0 <= i < q ==> #[trigger] queues@[i] == (Bc250Mailbox { regs: queue_regs(i), timeout }),
            decreases QUEUE_COUNT - q,
        {
            let regs = default_queue_regs(q);
            queues.push(Bc250Mailbox::new(regs.cmd, regs.rsp, regs.arg, timeout));
            q = q + 1;
        }
        Bc250Smu { allow_queue0, timeout, queues }
    }

    /// Refuses queue 0 unless the facade allows it.
    pub fn guard_queue(&self, q: u8) -> (r: Result<(), SmuError>)
        ensures
            r == (if q == 0 && !self.allow_queue0 { Err(SmuError::Queue0Disabled) } else { Ok(()) }),
    {
        if q == 0 && !self.allow_queue0 {
            return Err(SmuError::Queue0Disabled);
        }
        Ok(())
    }

    /// The mailbox of queue `q`, gate included.
    pub fn get_queue(&self, q: u8) -> (r: Result<Bc250Mailbox, SmuError>)
        requires
            self.wf(),
        ensures
            r == self.lookup(q),
            r matches Ok(mb) ==> mb.wf(),
    {
        self.guard_queue(q)?;
        if q < QUEUE_COUNT {
            Ok(self.queues[q as usize])
        } else {
            Err(SmuError::QueueNotConfigured(q))
        }
    }

    /// Starts a bare mailbox round on queue `q`; its outcome is the status.
    pub fn raw_send(&self, q: u8, msg_id: u32, arg: u32, arg_high: Option<u32>) -> (r: Result<SendRound, SmuError>)
        requires
            self.wf(),
        ensures
            r == (match self.lookup(q) {
                Ok(mb) => Ok(mb.round(msg_id, arg, arg_high)),
                Err(e) => Err::<SendRound, SmuError>(e),
            }),
            r matches Ok(s) ==> s.wf(),
    {
        let mb = self.get_queue(q)?;
        Ok(mb.send(msg_id, arg, arg_high))
    }

    /// The read of queue `q`'s low argument register.
    pub fn raw_read(&self, q: u8) -> (r: Result<RegOp, SmuError>)
        requires
            self.wf(),
        ensures
            r == (match self.lookup(q) {
                Ok(mb) => Ok(RegOp::Read { reg: mb.regs.arg }),
                Err(e) => Err::<RegOp, SmuError>(e),
            }),
    {
        let mb = self.get_queue(q)?;
        Ok(mb.read_arg())
    }

    /// The read of queue `q`'s high argument register.
    pub fn raw_read_high(&self, q: u8) -> (r: Result<RegOp, SmuError>)
        requires
            self.wf(),
        ensures
            r == (match self.lookup(q) {
                Ok(mb) => Ok(RegOp::Read { reg: (mb.regs.arg + 4) as u32 }),
                Err(e) => Err::<RegOp, SmuError>(e),
            }),
    {
        let mb = self.get_queue(q)?;
        Ok(mb.read_arg_high())
    }

    /// Begins message `msg_id` on queue `q`. A closed queue 0 and an unknown
    /// queue are refused here, before any register access. With
    /// `check_status` a non-Ok status fails the call; with `decode` the reply
    /// is the decoded argument register, else the status byte.
    pub fn send_message(
        &self,
        q: u8,
        msg_id: u32,
        arg: u32,
        arg_high: Option<u32>,
        decode: Option<Decoder>,
        check_status: bool,
    ) -> (r: Result<MessageCall, SmuError>)
        requires
            self.wf(),
        ensures
            r == (match self.lookup(q) {
                Ok(_) => Ok(self.call(q, msg_id, arg, arg_high, decode, check_status)),
                Err(e) => Err::<MessageCall, SmuError>(e),
            }),
            r matches Ok(c) ==> c.wf(),
    {
        let round = self.raw_send(q, msg_id, arg, arg_high)?;
        Ok(MessageCall { queue: q, msg_id, check_status, decode, round, arg_value: None })
    }

    /// Test message on queue 3: the firmware echoes `value + 1` in the argument register.
    pub fn test_message(&self, value: u32) -> (r: Result<MessageCall, SmuError>)
        requires
            self.wf(),
        ensures
            r == Ok::<MessageCall, SmuError>(self.call(3, 0x01, value, None, Some(Decoder::Raw), true)),
            r matches Ok(c) ==> c.wf(),
    {
        self.send_message(3, 0x01, value, None, Some(Decoder::Raw), true)
    }

    /// Current GFX clock in MHz.
    pub fn get_gfx_frequency(&self) -> (r: Result<MessageCall, SmuError>)
        requires
            self.wf(),
        ensures
            r == (if self.allow_queue0 {
                Ok(self.call(0, 0x37, 0, None, Some(Decoder::Raw), true))
            } else {
                Err::<MessageCall, SmuError>(SmuError::Queue0Disabled)
            }),
            r matches Ok(c) ==> c.wf(),
    {
        self.send_message(0, 0x37, 0, None, Some(Decoder::Raw), true)
    }

    /// Current GFX voltage in mV, decoded from the VID the firmware reports.
    pub fn get_gfx_vid(&self) -> (r: Result<MessageCall, SmuError>)
        requires
            self.wf(),
        ensures
            r == (if self.allow_queue0 {
                Ok(self.call(0, 0x38, 0, None, Some(Decoder::Millivolts), true))
            } else {
                Err::<MessageCall, SmuError>(SmuError::Queue0Disabled)
            }),
            r matches Ok(c) ==> c.wf(),
    {
        self.send_message(0, 0x38, 0, None, Some(Decoder::Millivolts), true)
    }

    /// Forces the GFX clock to `freq_mhz`.
    pub fn force_gfx_freq(&self, freq_mhz: u32) -> (r: Result<MessageCall, SmuError>)
        requires
            self.wf(),
        ensures
            r == (if self.allow_queue0 {
                Ok(self.call(0, 0x39, freq_mhz, None, None, true))
            } else {
                Err::<MessageCall, SmuError>(SmuError::Queue0Disabled)
            }),
            r matches Ok(c) ==> c.wf(),
    {
        self.send_message(0, 0x39, freq_mhz, None, None, true)
    }

    /// Hands the GFX clock back to the firmware.
    pub fn unforce_gfx_freq(&self) -> (r: Result<MessageCall, SmuError>)
        requires
            self.wf(),
        ensures
            r == (if self.allow_queue0 {
                Ok(self.call(0, 0x3A, 0, None, None, true))
            } else {
                Err::<MessageCall, SmuError>(SmuError::Queue0Disabled)
            }),
            r matches Ok(c) ==> c.wf(),
    {
        self.send_message(0, 0x3A, 0, None, None, true)
    }

    /// Forces the GFX voltage to `mv`, sent as its VID.
    pub fn force_gfx_vid(&self, mv: u32) -> (r: Result<MessageCall, SmuError>)
        requires
            self.wf(),
        ensures
            r == (if self.allow_queue0 {
                Ok(self.call(0, 0x3B, vid_of_mv(mv as int) as u32, None, None, true))
            } else {
                Err::<MessageCall, SmuError>(SmuError::Queue0Disabled)
            }),
            r matches Ok(c) ==> c.wf(),
    {
        let vid = mv_to_vid(mv);
        self.send_message(0, 0x3B, vid, None, None, true)
    }

    /// Hands the GFX voltage back to the firmware. The firmware answers this
    /// one with a non-Ok status on success, so the status is not checked.
    pub fn unforce_gfx_vid(&self) -> (r: Result<MessageCall, SmuError>)
        requires
            self.wf(),
        ensures
            r == (if self.allow_queue0 {
                Ok(self.call(0, 0x3C, 0, None, None, false))
            } else {
                Err::<MessageCall, SmuError>(SmuError::Queue0Disabled)
            }),
            r matches Ok(c) ==> c.wf(),
    {
        self.send_message(0, 0x3C, 0, None, None, false)
    }
}

impl Bc250Smu {
    /// The messages that apply a frequency change, in order: the voltage is
    /// forced before the clock, so the clock never runs above the safe curve;
    /// then both are read back.
    pub fn change_calls(&self, ch: FreqChange) -> (r: Result<Vec<MessageCall>, SmuError>)
        requires
            self.wf(),
        ensures
            r matches Ok(v) ==> v@ == seq![
                self.call(0, 0x3B, vid_of_mv(ch.voltage_mv as int) as u32, None, None, true),
                self.call(0, 0x39, ch.freq_mhz, None, None, true),
                self.call(0, 0x37, 0, None, Some(Decoder::Raw), true),
                self.call(0, 0x38, 0, None, Some(Decoder::Millivolts), true),
            ],
            r matches Ok(v) ==> forall|i: int| 0 <= i < v@.len() ==> (#[trigger] v@[i]).wf(),
            r is Err <==> !self.allow_queue0,
            r is Err ==> r == Err::<Vec<MessageCall>, SmuError>(SmuError::Queue0Disabled),
    {
        let mut calls: Vec<MessageCall> = Vec::new();
        calls.push(self.force_gfx_vid(ch.voltage_mv)?);
        calls.push(self.force_gfx_freq(ch.freq_mhz)?);
        calls.push(self.get_gfx_frequency()?);
        calls.push(self.get_gfx_vid()?);
        Ok(calls)
    }
}

/// Whether the test message echo `echoed` answers `value`: it must be
/// `value + 1` (modulo 2^32).
pub open spec fn echo_of(value: u32) -> u32 {
    ((value as int + 1) % 0x1_0000_0000) as u32
}

pub fn test_message_passed(value: u32, echoed: u32) -> (r: bool)
    ensures
        r == (echoed == echo_of(value)),
{
    echoed == value.wrapping_add(1)
}

/// Fails with `TestMessageFailed` unless `echoed` answers `value`.
pub fn check_test_message(value: u32, echoed: u32) -> (r: Result<(), SmuError>)
    ensures
        r == (if echoed == echo_of(value) {
            Ok(())
        } else {
            Err(SmuError::TestMessageFailed { expected: echo_of(value), actual: echoed })
        }),
{
    let expected = value.wrapping_add(1);
    if echoed == expected {
        Ok(())
    } else {
        Err(SmuError::TestMessageFailed { expected, actual: echoed })
    }
}

/// Forcing a frequency writes it to queue 0's argument register, and reading
/// the frequency back, once its round is answered Ok, returns what that
/// register holds: against a register file that keeps the forced value, the
/// read-back is the forced frequency.
pub proof fn lemma_forced_frequency_reads_back(smu: Bc250Smu, f: u32)
    requires
        smu.wf(),
        smu.allow_queue0,
    ensures
        ({
            let force = smu.call(0, 0x39, f, None, None, true);
            let get = smu.call(0, 0x37, 0, None, Some(Decoder::Raw), true);
            let answered = MessageCall {
                round: SendRound { writes_done: 4, reply: Some(SmuStatus::Success), ..get.round },
                ..get
            };
            &&& force.round.write_op(1) == (RegOp::Write { reg: queue_regs(0).arg, value: f })
            &&& force.round.write_op(3) == (RegOp::Write { reg: queue_regs(0).cmd, value: 0x39 })
            &&& answered.step() == Step::<u32>::Op(RegOp::Read { reg: queue_regs(0).arg })
            &&& answered.after(f).step() == Step::<u32>::Done(Ok(f))
        }),
{
}

/// Unforcing the voltage ends in `Ok` with the status byte whatever status
/// the firmware answers, and its request does not depend on earlier calls:
/// repeating it after any number of forced voltages changes nothing.
pub proof fn lemma_unforce_vid_idempotent(smu: Bc250Smu, s: SmuStatus, round: SendRound)
    requires
        smu.wf(),
        smu.allow_queue0,
        round.writes_done == 4,
        round.reply == Some(s),
    ensures
        ({
            let c = smu.call(0, 0x3C, 0, None, None, false);
            &&& c.round == smu.mailbox(0).round(0x3C, 0, None)
            &&& (MessageCall { round, ..c }).step() == Step::<u32>::Done(Ok(s.byte() as u32))
        }),
{
}

} // verus!
