//! The control core of an interactive real-time application: raw input
//! events are translated into typed callbacks on an application-supplied
//! handler, and a loop driver decides, iteration by iteration, when the
//! handler is updated, drawn and finally released.
//!
//! The crate performs no input or output of its own. Whoever owns the window
//! system polls it, hands the drained events and the elapsed time to an
//! [`event::EventLoop`], and keeps iterating for as long as the loop says it
//! is running.

pub mod error;
pub mod event;
pub mod input;
pub mod laws;
pub mod model;
pub mod raw;
pub mod translator;
