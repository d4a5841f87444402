//! Profile store of a frame-generation settings editor.
//!
//! The crate holds the rules of the editor without its widgets: the stored
//! configuration, the validation of profile names, the mutations of the
//! profile list together with the selection that follows them, and the
//! style sheet of the application.

pub mod app_state;
pub mod config;
pub mod profile_manager;
pub mod settings_window;
pub mod signal_handlers;
pub mod styles;
pub mod styling;
pub mod text;
pub mod utils;
