//! Control core of a motorised launcher: a rotating arm watched by one
//! proximity sensor, and a servo-driven trigger released at a chosen phase of
//! the rotation.
//!
//! The crate holds the decisions only. Pins, timers, sockets and threads belong
//! to the program around it, which feeds in plain values and carries out the
//! [`event::Action`]s that come back.

pub mod assets;
pub mod control;
pub mod event;
pub mod message;
pub mod queue;
pub mod sensor;
pub mod servo;
pub mod sessions;
pub mod timing;
