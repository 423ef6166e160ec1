//! Capability-based WASI system-call core: descriptor table, rights model,
//! sandboxed path resolution and the decisions of each system call, with the
//! host operating system kept behind plain values.

pub mod ctx;
pub mod fdentry;
pub mod host;
pub mod hostcalls_impl;
pub mod memory;
pub mod sys;
pub mod winx;
