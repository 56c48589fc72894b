//! A safety layer around a native ABI that creates and drives virtual
//! human-interface devices (mice, keyboards, and two gamepad variants).
//!
//! The crate verifies the binding layer's own obligations: text fields are
//! marshalled as null-terminated buffers with no embedded terminator, the
//! error channel's message is captured exactly once, every native allocation
//! handed over by an enumeration call is released exactly once, handles are
//! destroyed at most once, and a replaced rumble closure is never routed a
//! later delivery. The raw calls across the ABI are made by an unverified
//! shell that consults this crate for every decision and hands back what the
//! native side returned as plain values.

pub mod arena;
pub mod common;
pub mod device;
pub mod joypad;
pub mod joypad_switch;
pub mod joypad_xbox;
pub mod keyboard;
pub mod mouse;
