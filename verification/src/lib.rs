//! Host-side support for Ardeck input devices.
//!
//! An Ardeck peripheral reports button presses and analog readings over a
//! serial link, one zero-delimited frame per event. This crate holds the
//! verified core of the host side: the frame decoder, the switch event model,
//! the connection-session state machine, and the small value types that the
//! surrounding application hands to them.

pub mod device;
pub mod store;
