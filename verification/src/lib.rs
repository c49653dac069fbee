//! Input-translation and frame-dispatch pipeline for driving a DOOM engine
//! from heterogeneous input sources and mirroring its output to a remote
//! low-resolution display.
//!
//! The crate is organised along the stages of the pipeline:
//!
//! - [`message`] holds the canonical event and action vocabulary that the
//!   stages exchange.
//! - [`controller`] normalizes raw remote events (key codes, gamepad button
//!   and axis indices) into canonical events.
//! - [`mapper`] is the stateful translator from canonical events to a
//!   discrete action stream, with deadzone and hysteresis rules that make
//!   continuous axes behave like keys.
//! - [`laws`] states and proves the mapper's hysteresis properties.
//! - [`frame`] derives the low-resolution display grid and the
//!   full-resolution mirror image from a native frame buffer.
//! - [`bridge`] maps actions to the engine's key vocabulary.
//! - [`mirror`] decides pointer-lock transitions and translates local window
//!   events into canonical events.
//! - [`lighthouse`] converts a display grid into the remote display's own
//!   frame type.

pub mod bridge;
pub mod controller;
pub mod frame;
pub mod laws;
pub mod lighthouse;
pub mod mapper;
pub mod message;
pub mod mirror;
