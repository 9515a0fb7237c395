//! Atoms that run a command on the local machine.

pub mod elevation;
pub mod exec;
pub mod process;
