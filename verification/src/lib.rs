//! Support library for bridging two link-layer network interfaces and for
//! publishing a process's network namespace under a discoverable name.
//!
//! The relay engine is modeled as a pair of cross-wired relay directions,
//! each a small state machine whose behaviour is stated and proved here.
//! All operating-system work (raw sockets, threads, the filesystem) lives
//! outside this crate; the library decides, the surrounding program acts.

pub mod bridge;
pub mod netns;
pub mod relay;
