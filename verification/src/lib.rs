//! A pager's navigation core: an immutable line buffer, a cursor, a viewport,
//! and the transition that one key press makes on them.

pub mod buffer;
pub mod command;
pub mod cursor;
pub mod laws;
pub mod navigator;
pub mod session;
pub mod viewport;
pub mod word;

pub use buffer::{LineBuffer, LoadError};
pub use command::{command_for, Command, Key, KeyEvent};
pub use cursor::CursorPosition;
pub use navigator::{NavAction, Navigator};
pub use session::{App, DlessConfig};
pub use viewport::ViewportState;
