//! Verified core of a cross-platform windowing and input-event library.
//!
//! The crate models the event-loop control-flow state machine, the X11
//! input-method (XIM) lifecycle with its negotiation and rebuild protocol,
//! the compose (dead-key) state machine, keyboard state tracking, and the
//! window-geometry heuristics. Native toolkit calls are performed by a thin
//! unverified adapter outside this crate; everything here is plain data and
//! verified logic.

pub mod compose;
pub mod event_loop;
pub mod events;
pub mod geometry;
pub mod ime;
pub mod input_method;
pub mod monitor;
pub mod util;
pub mod window;
pub mod xkb;
pub mod xproto;

pub use util::has_flag;
