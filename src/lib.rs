//! A verified model of a one-shot request/response exchange between a host
//! and a background worker: the wire messages, the worker's state machine and
//! the host's state machine, with the ordering laws that hold of them.
pub mod message;
pub mod worker;
pub mod host;
pub mod exchange;
pub mod text;
