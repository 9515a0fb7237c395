//! Atoms: units of system change that are planned and executed independently.

use vstd::prelude::*;

pub mod command;

verus! {

/// What every kind of action offers to whoever orchestrates a run.
///
/// The orchestrator asks `plan` whether the atom has anything to do, has it
/// executed, and reads back what the execution captured. How an atom is
/// executed is the atom's own matter; a type says in its implementation what
/// each method returns.
pub trait Atom {
    /// Whether the atom should be executed. Has no side effect.
    fn plan(&self) -> bool;

    /// What the last execution wrote to its standard output; empty before
    /// the first execution.
    fn output_string(&self) -> String;

    /// What the last execution wrote to its standard error; empty before the
    /// first execution.
    fn error_message(&self) -> String;

    /// One line that names the atom and its configuration, for logs.
    fn describe(&self) -> String;
}

} // verus!
