//! What differs from one host to the other, as far as it is a matter of
//! values: error codes, flags and file types.

pub mod unix;
pub mod windows;
