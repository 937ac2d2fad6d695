//! The state machine behind a terminal chat client.
//!
//! The crate decides; it does not draw and does not talk to anything. Key
//! presses, agent events and replies from the outside go in as plain values, the
//! new state and the effect to perform come out.

pub mod agent;
pub mod agent_laws;
pub mod commands;
pub mod completion;
pub mod completion_laws;
pub mod control;
pub mod dialogs;
pub mod handling;
pub mod key_laws;
pub mod keyboard;
pub mod laws;
pub mod layout_laws;
pub mod paths;
pub mod prompt;
pub mod requests;
pub mod screen;
pub mod selection;
pub mod state;
pub mod text;
pub mod text_laws;
pub mod transcript;
pub mod turn_view;
pub mod types;
pub mod view_laws;
