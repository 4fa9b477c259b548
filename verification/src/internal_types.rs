//! The documents that the remote service publishes, as decoded values.

pub mod shared;
pub mod shared_jvm;
