//! What the library needs to know of the Windows API: error codes, file
//! types and the flags with which files are opened.

pub mod file;
pub mod winerror;
