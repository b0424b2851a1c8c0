//! Forkserver session driver and comparison-log harvester.
//!
//! The library holds the verified core of a tool that runs one target
//! executable under the forkserver protocol and reads back the comparison
//! log the target writes into shared memory: the packed header bitfield
//! codec, the little-endian pipe-message codec, the session state machine
//! that drives the handshake, and the harvest transform that turns a map
//! snapshot into a detached report.  Process control, pipes and shared
//! memory themselves live in the surrounding application.

pub mod codec;
pub mod report;
pub mod session;
pub mod wire;
