//! A minimal plain-text editor core: one open document, its persistence
//! transitions, and two frequency statistics over its text.
//!
//! Nothing here touches the file system or a window. The caller performs file
//! reads, file writes and dialogs, and reports their outcomes as plain values;
//! every function states in its contract how the editor state changes in
//! response.

pub mod chars;
pub mod error;
pub mod labels;
pub mod lines;
pub mod notepad;
pub mod open_file;
pub mod stats;
pub mod text;
pub mod words;
