//! Library core of a GFX clock/voltage governor for the Cyan Skillfish APU.
//!
//! The crate holds the logic only: the VID codec, the SMU mailbox protocol as
//! a state machine over register operations, the index/data register window,
//! the SMU facade with its queue-0 gate, the safe-point curve, configuration
//! validation and the governor's control step. Performing the register
//! operations, sleeping and sampling the GPU is left to the caller, which
//! must run one exchange at a time per queue and keep each window pair together.
pub mod codec;
pub mod error;
pub mod mailbox;
pub mod window;
pub mod smu;
pub mod safe_points;
pub mod config;
pub mod governor;
