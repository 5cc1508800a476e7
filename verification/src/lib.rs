//! Decision logic of an explorer that wanders a galaxy of planets, collecting
//! carbon until it can have two of them combined into a diamond.
//!
//! The explorer talks to planets and to an orchestrator over channels. Every
//! exchange is outside work; this library holds what the explorer decides
//! between exchanges, as a state machine: the driver performs each `Action`
//! that the machine returns and hands back what came of it as an `Event`.
pub mod kinds;
pub mod messages;
pub mod machine;
pub mod laws;
pub mod protocol;

pub use machine::Explorer;
