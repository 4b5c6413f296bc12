//! Supervision of a local backend process and an embedded static-file server,
//! written as I/O-free state machines: every function here decides, and the
//! caller performs the operating-system work that the decision names.

pub mod endpoint;
pub mod error;
pub mod layout;
pub mod orchestrator;
pub mod poll;
pub mod probe;
pub mod process;
pub mod service;
pub mod slot;
