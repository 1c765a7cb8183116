//! Errors of the SMU stack and of the governor.
use vstd::prelude::*;

verus! {

/// What can go wrong when talking to the SMU or steering the GFX clock.
#[derive(Debug, Clone, PartialEq, Eq)]
pub enum SmuError {
    /// A config-space transfer failed; the text is the operating system's.
    Io(String),
    /// The config-space handle was used before it was opened.
    TransportNotOpened,
    /// No mailbox is configured for this queue id.
    QueueNotConfigured(u8),
    /// Queue 0 was addressed while the facade was built without it.
    Queue0Disabled,
    /// The firmware answered a status-checked message with a non-Ok status.
    SmuStatus { status: u8, queue: u8, msg: u8 },
    /// The test message did not echo its argument plus one.
    TestMessageFailed { expected: u32, actual: u32 },
    /// The poll budget ran out before the firmware answered.
    Timeout,
    /// A frequency above the highest safe point was requested.
    BeyondMaxSafePoint,
    /// The device's clock range leaves no frequency within the safe points.
    FrequencyRangeEmpty { min: u32, max: u32 },
}

} // verus!
