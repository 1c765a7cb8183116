//! The SMU register window: config-space offsets `0xB8` (index) and `0xBC`
//! (data) reach the SMU's 32-bit register space.
use vstd::prelude::*;
use crate::mailbox::RegOp;

verus! {

/// Config-space offset of the index register.
pub const SMU_INDEX_OFFSET: u64 = 0xB8;

/// Config-space offset of the data register.
pub const SMU_DATA_OFFSET: u64 = 0xBC;

/// One 4-byte access to the device's configuration space.
#[derive(Debug, Clone, Copy, PartialEq, Eq, Structural)]
pub enum ConfigOp {
    Write32 { offset: u64, value: u32 },
    Read32 { offset: u64 },
}

/// The two config-space accesses that carry one SMU register access: select
/// the register through the index, then transfer through the data register.
/// The pair must not be interleaved with another pair.
pub fn window_ops(op: RegOp) -> (r: (ConfigOp, ConfigOp))
    ensures
        r.0 == (ConfigOp::Write32 {
            offset: SMU_INDEX_OFFSET,
            value: match op {
                RegOp::Write { reg, .. } => reg,
                RegOp::Read { reg } => reg,
            },
        }),
        r.1 == (match op {
            RegOp::Write { value, .. } => ConfigOp::Write32 { offset: SMU_DATA_OFFSET, value },
            RegOp::Read { .. } => ConfigOp::Read32 { offset: SMU_DATA_OFFSET },
        }),
{
    match op {
        RegOp::Write { reg, value } => (
            ConfigOp::Write32 { offset: SMU_INDEX_OFFSET, value: reg },
            ConfigOp::Write32 { offset: SMU_DATA_OFFSET, value },
        ),
        RegOp::Read { reg } => (
            ConfigOp::Write32 { offset: SMU_INDEX_OFFSET, value: reg },
            ConfigOp::Read32 { offset: SMU_DATA_OFFSET },
        ),
    }
}

} // verus!
