//! Supervisory core of a minimal init process: the service units it loads
//! and unloads, the table that routes control signals to handlers, and the
//! never-terminating supervisor state machine that drives both.
//!
//! The library holds the decisions; performing them (spawning processes,
//! delivering kill requests, the blocking signal wait) is the caller's part.

pub mod router;
pub mod service;
pub mod supervisor;

pub use service::BusyError;
pub use service::Service;
pub use service::ServiceKind;
