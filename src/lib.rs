//! Simulated files: a name, a byte payload and an open/closed state that
//! decides whether the payload may be read.

pub mod file;
pub mod laws;

pub use file::{close, open, File, FileError, FileState, FileView};
