//! A modal terminal note editor: one document, a View mode for moving around
//! and an Edit mode for typing, saved on demand.
pub mod config;
pub mod document;
pub mod editor;
pub mod status;
pub mod textarea;

pub use config::Settings;
pub use document::File;
pub use editor::{read_input, Action, Event, Mode, Model, Notice};
