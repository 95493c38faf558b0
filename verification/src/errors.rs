//! The failure taxonomy of the pipeline. Every fatal condition an agent
//! can report is one of these variants; recoverable conditions (a failed
//! build within the repair budget, a non-200 health check) never surface
//! here.

use vstd::prelude::*;

verus! {

/// Why an agent gave up.
#[derive(Debug, Clone, Copy, PartialEq, Eq, Structural)]
pub enum AgentFailure {
    /// The oracle or a probe could not be reached, even after the
    /// oracle client's single internal retry.
    TransportError,
    /// The oracle answered, but its structured response could not be
    /// decoded. Never retried.
    DecodeError,
    /// More consecutive failed builds than the repair budget tolerates.
    BudgetExhausted,
    /// A subprocess could not be spawned or managed.
    ProcessError,
    /// The human safety gate declined to run generated code; fatal for
    /// the entire run, not just the reporting agent.
    SafetyDeclined,
}

impl AgentFailure {
    /// The diagnostic message shown when a run halts on this failure.
    pub fn describe(&self) -> (s: &'static str)
        ensures
            (*self is TransportError) ==> s@ == "the oracle or a probe target could not be reached"@,
            (*self is DecodeError) ==> s@ == "the oracle's structured response could not be decoded"@,
            (*self is BudgetExhausted) ==> s@ == "too many consecutive failed builds"@,
            (*self is ProcessError) ==> s@ == "a subprocess could not be spawned or managed"@,
            (*self is SafetyDeclined) ==> s@ == "the safety gate declined to run generated code"@,
    {
        match self {
            AgentFailure::TransportError => "the oracle or a probe target could not be reached",
            AgentFailure::DecodeError => "the oracle's structured response could not be decoded",
            AgentFailure::BudgetExhausted => "too many consecutive failed builds",
            AgentFailure::ProcessError => "a subprocess could not be spawned or managed",
            AgentFailure::SafetyDeclined => "the safety gate declined to run generated code",
        }
    }
}

} // verus!
