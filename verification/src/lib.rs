//! The document session of a single-document text editor: an editable
//! buffer with cursor and selection, the state machine that tracks which
//! file is open, whether it has unsaved edits and whether a file operation
//! is in flight, and the step-by-step plan of each file operation.
//!
//! Nothing here touches a disk, a dialog or a window. The caller performs
//! what a [`file_handler::FileTask`] asks for and reports what happened.

pub mod buffer;
pub mod editor;
pub mod error;
pub mod file_handler;
pub mod lines;
pub mod path;
pub mod status;
pub mod text;
pub mod theme;
