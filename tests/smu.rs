use std::collections::HashMap;

use cyan_skillfish_governor_smu::error::SmuError;
use cyan_skillfish_governor_smu::mailbox::{Bc250Mailbox, RegOp, SendRound, SmuStatus, Step};
use cyan_skillfish_governor_smu::window::{window_ops, ConfigOp};
use cyan_skillfish_governor_smu::smu::{check_test_message, test_message_passed, Bc250Smu, MessageCall};

const Q0_CMD: u32 = 0x03B10A08;
const Q0_RSP: u32 = 0x03B10A68;
const Q0_ARG: u32 = 0x03B10A48;
const Q3_CMD: u32 = 0x03B10A20;
const Q3_RSP: u32 = 0x03B10A80;
const Q3_ARG: u32 = 0x03B10A88;

/// A register file with a scripted firmware behind queues 0 and 3.
struct Firmware {
    regs: HashMap<u32, u32>,
    /// Status written to the response register when a command arrives; `None`: never answers.
    answer: Option<u32>,
    forced_freq: u32,
    forced_vid: u32,
    writes: Vec<(u32, u32)>,
    reads: Vec<u32>,
}

impl Firmware {
    fn new(answer: Option<u32>) -> Self {
        Firmware { regs: HashMap::new(), answer, forced_freq: 0, forced_vid: 0, writes: Vec::new(), reads: Vec::new() }
    }

    fn write(&mut self, reg: u32, value: u32) {
        self.writes.push((reg, value));
        self.regs.insert(reg, value);
        let (rsp, arg) = match reg {
            Q0_CMD => (Q0_RSP, Q0_ARG),
            Q3_CMD => (Q3_RSP, Q3_ARG),
            _ => return,
        };
        let a = *self.regs.get(&arg).unwrap_or(&0);
        match (reg, value) {
            (Q0_CMD, 0x39) => self.forced_freq = a,
            (Q0_CMD, 0x3B) => self.forced_vid = a,
            (Q0_CMD, 0x38) => {
                self.regs.insert(arg, self.forced_vid);
            }
            (Q0_CMD, 0x37) => {
                self.regs.insert(arg, self.forced_freq);
            }
            (Q3_CMD, 0x01) => {
                self.regs.insert(arg, a.wrapping_add(1));
            }
            _ => {}
        }
        if let Some(s) = self.answer {
            self.regs.insert(rsp, s);
        }
    }

    fn read(&mut self, reg: u32) -> u32 {
        self.reads.push(reg);
        *self.regs.get(&reg).unwrap_or(&0)
    }

    fn run(&mut self, mut call: MessageCall) -> Result<u32, SmuError> {
        loop {
            match call.next() {
                Step::Op(RegOp::Write { reg, value }) => {
                    self.write(reg, value);
                    call.advance(0);
                }
                Step::Op(RegOp::Read { reg }) => {
                    let v = self.read(reg);
                    call.advance(v);
                }
                Step::Done(r) => return r,
            }
        }
    }

    fn run_round(&mut self, mut round: SendRound) -> Result<SmuStatus, SmuError> {
        loop {
            match round.next() {
                Step::Op(RegOp::Write { reg, value }) => {
                    self.write(reg, value);
                    round.advance(0);
                }
                Step::Op(RegOp::Read { reg }) => {
                    let v = self.read(reg);
                    round.advance(v);
                }
                Step::Done(r) => return r,
            }
        }
    }
}

#[test]
fn status_codes_decode() {
    assert_eq!(SmuStatus::from_u32(0x01), Some(SmuStatus::Success));
    assert_eq!(SmuStatus::from_u32(0xFF), Some(SmuStatus::Failed));
    assert_eq!(SmuStatus::from_u32(0xFE), Some(SmuStatus::UnknownCmd));
    assert_eq!(SmuStatus::from_u32(0xFD), Some(SmuStatus::RejectedPrereq));
    assert_eq!(SmuStatus::from_u32(0xFC), Some(SmuStatus::RejectedBusy));
    assert_eq!(SmuStatus::from_u32(0x00), None);
    assert_eq!(SmuStatus::from_u32(0x02), None);
    assert_eq!(SmuStatus::from_u32(0x1_01), Some(SmuStatus::Success));
    assert_eq!(SmuStatus::RejectedBusy.code(), 0xFC);
}

#[test]
fn send_writes_request_in_order() {
    let mb = Bc250Mailbox::new(0x100, 0x200, 0x300, 10);
    let mut round2 = mb.send(0x42, 7, Some(9));
    let mut ops = Vec::new();
    loop {
        match round2.next() {
            Step::Op(op) => {
                ops.push(op);
                let v = match op {
                    RegOp::Read { .. } => 0x01,
                    RegOp::Write { .. } => 0,
                };
                round2.advance(v);
            }
            Step::Done(r) => {
                assert_eq!(r, Ok(SmuStatus::Success));
                break;
            }
        }
    }
    assert_eq!(
        ops,
        vec![
            RegOp::Write { reg: 0x200, value: 0 },
            RegOp::Write { reg: 0x300, value: 7 },
            RegOp::Write { reg: 0x304, value: 9 },
            RegOp::Write { reg: 0x100, value: 0x42 },
            RegOp::Read { reg: 0x200 },
        ]
    );
    let mut fw = Firmware::new(None);
    let _ = fw.run_round(mb.send(1, 0, None));
    assert_eq!(fw.writes[2], (0x304, 0));
    assert_eq!(mb.read_arg(), RegOp::Read { reg: 0x300 });
    assert_eq!(mb.read_arg_high(), RegOp::Read { reg: 0x304 });
}

#[test]
fn silent_firmware_times_out_after_budget() {
    let smu = Bc250Smu::new(true, 5);
    let mut fw = Firmware::new(None);
    let call = smu.test_message(123).unwrap();
    assert_eq!(fw.run(call), Err(SmuError::Timeout));
    let rsp_reads = fw.reads.iter().filter(|r| **r == Q3_RSP).count();
    assert_eq!(rsp_reads, 5);
    assert_eq!(fw.reads.len(), 5);
}

#[test]
fn raw_send_times_out_after_budget() {
    let smu = Bc250Smu::new(true, 7);
    let mut fw = Firmware::new(None);
    let round = smu.raw_send(0, 0x37, 0, None).unwrap();
    assert_eq!(fw.run_round(round), Err(SmuError::Timeout));
    assert_eq!(fw.reads, vec![Q0_RSP; 7]);
}

#[test]
fn queue0_gate_refuses_without_touching_hardware() {
    let smu = Bc250Smu::new(false, 5);
    assert_eq!(smu.get_gfx_frequency(), Err(SmuError::Queue0Disabled));
    assert_eq!(smu.force_gfx_freq(1000), Err(SmuError::Queue0Disabled));
    assert_eq!(smu.raw_read(0), Err(SmuError::Queue0Disabled));
    assert!(smu.test_message(1).is_ok());
}

#[test]
fn unknown_queue_is_refused() {
    let smu = Bc250Smu::new(true, 5);
    assert_eq!(smu.raw_send(5, 1, 0, None), Err(SmuError::QueueNotConfigured(5)));
    assert_eq!(smu.raw_read_high(9), Err(SmuError::QueueNotConfigured(9)));
    assert_eq!(smu.get_queue(4).unwrap().regs.cmd, 0x03B10A24);
}

#[test]
fn test_message_echo() {
    let smu = Bc250Smu::new(true, 5);
    let mut fw = Firmware::new(Some(0x01));
    let echoed = fw.run(smu.test_message(123).unwrap()).unwrap();
    assert_eq!(echoed, 124);
    assert!(test_message_passed(123, echoed));
    assert_eq!(check_test_message(123, echoed), Ok(()));
    assert_eq!(
        check_test_message(123, 5),
        Err(SmuError::TestMessageFailed { expected: 124, actual: 5 })
    );
    assert!(test_message_passed(u32::MAX, 0));
}

#[test]
fn forced_frequency_reads_back() {
    let smu = Bc250Smu::new(true, 5);
    let mut fw = Firmware::new(Some(0x01));
    assert_eq!(fw.run(smu.force_gfx_freq(1500).unwrap()), Ok(0x01));
    assert_eq!(fw.run(smu.get_gfx_frequency().unwrap()), Ok(1500));
}

#[test]
fn forced_voltage_is_sent_as_vid() {
    let smu = Bc250Smu::new(true, 5);
    let mut fw = Firmware::new(Some(0x01));
    fw.run(smu.force_gfx_vid(1000).unwrap()).unwrap();
    assert!(fw.writes.contains(&(Q0_ARG, 88)));
    assert!(fw.writes.contains(&(Q0_CMD, 0x3B)));
}

#[test]
fn gfx_vid_is_decoded_to_millivolts() {
    let smu = Bc250Smu::new(true, 5);
    let mut fw = Firmware::new(Some(0x01));
    fw.run(smu.force_gfx_vid(1200).unwrap()).unwrap();
    assert!(fw.writes.contains(&(Q0_ARG, 56)));
    assert_eq!(fw.run(smu.get_gfx_vid().unwrap()), Ok(1200));
}

#[test]
fn unforce_vid_is_idempotent() {
    let smu = Bc250Smu::new(true, 5);
    let mut fw = Firmware::new(Some(0xFF));
    for _ in 0..3 {
        fw.run(smu.force_gfx_vid(900).unwrap()).unwrap_err();
    }
    let first = fw.run(smu.unforce_gfx_vid().unwrap());
    let second = fw.run(smu.unforce_gfx_vid().unwrap());
    assert_eq!(first, Ok(0xFF));
    assert_eq!(second, first);
}

#[test]
fn checked_status_is_an_error() {
    let smu = Bc250Smu::new(true, 5);
    let mut fw = Firmware::new(Some(0xFE));
    assert_eq!(
        fw.run(smu.unforce_gfx_freq().unwrap()),
        Err(SmuError::SmuStatus { status: 0xFE, queue: 0, msg: 0x3A })
    );
    let mut fw = Firmware::new(Some(0xFD));
    let call = smu.send_message(3, 0x20, 5, None, None, false).unwrap();
    assert_eq!(fw.run(call), Ok(0xFD));
}

#[test]
fn window_selects_then_transfers() {
    assert_eq!(
        window_ops(RegOp::Write { reg: Q0_CMD, value: 0x39 }),
        (ConfigOp::Write32 { offset: 0xB8, value: Q0_CMD }, ConfigOp::Write32 { offset: 0xBC, value: 0x39 })
    );
    assert_eq!(
        window_ops(RegOp::Read { reg: Q0_RSP }),
        (ConfigOp::Write32 { offset: 0xB8, value: Q0_RSP }, ConfigOp::Read32 { offset: 0xBC })
    );
}
