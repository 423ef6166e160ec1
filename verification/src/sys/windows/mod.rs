//! Windows hosts.

pub mod host_impl;
pub mod symlink;
