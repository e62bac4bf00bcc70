//! Core of an event-sourced aggregate: commands are validated against the
//! current state and answered with events; events are folded back into the
//! state, which is always a pure function of the event history.

pub mod aggregate;
pub mod codec;
pub mod events;
