//! The input layer of an interactive synthesizer: it turns keyboard and
//! pointer events into commands for a synthesis engine, and keeps track of
//! whether the player is performing or editing the sound.
//!
//! Real-valued quantities are carried as fixed-point integers (see
//! [`scale::UNIT`]), so every transition is a function on integers and
//! enumerations. [`control::dispatch`] is the transition function;
//! [`control::Control::handle_input`] computes it. What holds of it over
//! all states and events is proved in [`laws`].

pub mod command;
pub mod control;
pub mod input;
pub mod key;
pub mod laws;
pub mod patch;
pub mod pitch;
pub mod scale;
