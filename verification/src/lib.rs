//! The decision logic of a desktop translation assistant: what to do when a
//! hotkey fires, when the mouse selects text, when the scripting worker
//! speaks, and how the settings are read. Input, output and windows belong to
//! the program around this library; here every step is a function from state
//! and event to the next state and the action to take.

pub mod capture;
pub mod commands;
pub mod config;
pub mod events;
pub mod hotkey;
pub mod lang;
pub mod mouse;
pub mod names;
pub mod platform;
pub mod protocol;
pub mod rules;
pub mod segment;
pub mod selection;
pub mod startup;
pub mod text;
pub mod tray;
pub mod window;
pub mod worker;
