//! What each system call decides, apart from the host calls themselves.

pub mod fs;
pub mod fs_helpers;
pub mod misc;
