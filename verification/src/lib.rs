//! Turbo Notes: the note store and the modal controller of a terminal
//! note-taking tool, with their contracts.
//!
//! The store keeps the notes newest first and remembers what has not reached
//! storage yet; the caller reads and writes the backing file and tells the
//! store how the writing went. The controller turns key presses into changes
//! of the store, of the typed text and of the selection.

pub mod app;
pub mod autostart;
pub mod config;
pub mod export;
pub mod note;
pub mod store;
pub mod strings;
pub mod text;
pub mod time;

pub use app::{Action, App, AppMode, AppView, Key};
pub use config::{Config, ConfigError, ConfigView, Theme, ThemeView};
pub use note::{Note, NoteView};
pub use export::ExportFormat;
pub use store::{LoadOutcome, ManagerView, NotesManager, StoreError};
pub use time::Timestamp;
