//! Choosing the native sink from whether standard output is a terminal.
use vstd::prelude::*;

verus! {

#[verifier::external_type_specification]
#[verifier::external_body]
pub struct ExTerm(console::Term);

/// Relies on `console::Term::stdout`: a handle on the process's standard output.
pub assume_specification[ console::Term::stdout ]() -> console::Term;

/// Relies on `console::Term::is_term`: whether the handle is attached to a
/// terminal, as probed when the handle was made. Nothing is promised of the answer.
pub assume_specification[ console::Term::is_term ](t: &console::Term) -> bool;

/// The sink of a native process.
#[derive(Clone, Copy, Debug, PartialEq, Eq, Structural)]
pub enum LogTarget {
    InteractiveTerminal,
    JournalTransport,
}

/// The sink for a given state of standard output.
pub open spec fn target_for(stdout_is_terminal: bool) -> LogTarget {
    if stdout_is_terminal {
        LogTarget::InteractiveTerminal
    } else {
        LogTarget::JournalTransport
    }
}

/// The sink for a given state of standard output: the terminal formatter when
/// it is a terminal, the journal otherwise.
pub fn select_target(stdout_is_terminal: bool) -> (r: LogTarget)
    ensures
        r == target_for(stdout_is_terminal),
{
    if stdout_is_terminal {
        LogTarget::InteractiveTerminal
    } else {
        LogTarget::JournalTransport
    }
}

/// The sink is a function of the terminal state alone: an interactive standard
/// output always gives the terminal formatter, any other always the journal,
/// and two probes that agree give the same sink.
pub proof fn lemma_target_deterministic(first: bool, second: bool)
    ensures
        first ==> target_for(first) == LogTarget::InteractiveTerminal,
        !first ==> target_for(first) == LogTarget::JournalTransport,
        first == second ==> target_for(first) == target_for(second),
{
}

} // verus!
