//! A verified peer-to-peer session manager.
//!
//! The crate models the state of a multi-peer transport session: a typed
//! message codec with a proved round trip, a channel router that maps each
//! message to a delivery class, a lifecycle state machine with bounded
//! reconnection, and the shared session record that a consumer polls for
//! snapshots.  All I/O (the transport itself, timers, rendering) lives
//! outside the crate; the functions here take the outcomes of those actions
//! as plain values and are verified for every such outcome.

pub mod bytes;
pub mod codec;
pub mod names;
pub mod config;
pub mod demo_windows;
pub mod router;
pub mod state;
pub mod stats;
pub mod supervisor;
pub mod widgets;
