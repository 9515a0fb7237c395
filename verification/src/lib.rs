//! Actions that change the local machine, each one planned and executed on
//! its own, and the rules by which a shell command is run with or without
//! elevated privileges; beside them, what the command line decides about
//! logging and what the user is told of a newer release.

pub mod atoms;
pub mod logging;
pub mod text;
pub mod updates;
