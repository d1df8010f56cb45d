//! Rotation orchestrator core: admission and rotation decisions for a pool of
//! account credentials that keep a pair of named compute sessions running.
//!
//! The crate holds the decision logic only: quota-to-runtime conversion and
//! admission, the rotation state machine, keep-alive scheduling, the durable
//! progress record and its codec, and classification of the command-line
//! client's output. All process spawning, file access and network traffic
//! live outside, in the surrounding application, which feeds plain values in
//! and carries the decided actions out.

pub mod credentials;
pub mod github;
pub mod keepalive;
pub mod progress;
pub mod provision;
pub mod quota;
pub mod retry;
pub mod rotation;
pub mod text;
