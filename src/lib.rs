//! A publisher that signs messages with one identity and fans them out to a
//! pool of relays, reporting per-relay and aggregate delivery outcomes.
//!
//! The network work (connecting, sending, waiting for acknowledgements) is
//! done by the caller; this library decides what to do at each step and folds
//! what happened into relay states and publish outcomes.

mod bindings;

pub mod relay;
pub mod pool;
pub mod message;
pub mod publisher;
