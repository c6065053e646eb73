//! Verified core of a chat-platform logging bridge.
//!
//! The library holds the decision logic of the bridge: a write-once
//! readiness gate for the gateway connection, a memoizing resolver for
//! the destination thread, a pure formatter for log entries, the logger
//! capability that composes them, and the two-task supervisor's state
//! machine. The asynchronous transport itself (gateway client, protocol
//! server) lives outside the library and drives these steps.

pub mod dest;
pub mod entry;
pub mod gate;
pub mod logger;
pub mod resolver;
pub mod supervisor;
pub mod text;
