//! Decision logic of the terminal UI's slash-command data source and of its
//! voice-input session model.

pub mod gates;
pub mod lifecycle;
pub mod voice_input;
pub mod query;
pub mod data_source;
