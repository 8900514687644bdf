//! Event bridge between a speech-processing host and a presentation surface:
//! a typed event model, the render loop's state and batch draining, a
//! callback registry, a start-once controller over an event channel, and the
//! decision core of a reconnecting transport client.
pub mod events;
pub mod ui_state;
pub mod channel;
pub mod controller;
pub mod registry;
pub mod transport;
