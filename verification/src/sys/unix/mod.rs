//! Unix hosts.

pub mod dir;
pub mod host_impl;
