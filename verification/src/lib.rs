//! A bridge core that moves messages from a queue subscription into an
//! outbound webhook-delivery pipeline, optionally transforming each payload
//! in between.
//!
//! The heart of the crate is the run-loop state machine in [`runloop`]: it
//! decides, for every outcome reported by the queue backend, the
//! transformation worker and the delivery client, what the loop does next and
//! how the in-flight message is resolved. The machine is pure and fully
//! verified; a host drives it by performing the returned [`runloop::Action`]
//! (the actual receive, transform, deliver and ack calls are network I/O and
//! live outside this crate) and feeding back the matching [`runloop::Event`].

pub mod config;
pub mod error;
pub mod plugin;
pub mod runloop;
