//! The attributes every agent carries: its objective, its role label and
//! its coarse lifecycle status.

use vstd::prelude::*;

verus! {

/// The coarse lifecycle of an agent. `UnitTesting` is the validating
/// state: the agent is building, launching and probing generated code.
#[derive(Debug, Clone, Copy, PartialEq, Eq, Structural)]
pub enum AgentStatus {
    Discovery,
    Working,
    UnitTesting,
    Finished,
}

/// What an agent is for, how it is addressed in output, and where it
/// stands in its lifecycle. The status is owned by the agent itself:
/// it only ever changes through the agent's own transitions.
pub struct AgentAttributes {
    pub objective: String,
    pub position: String,
    pub status: AgentStatus,
}

} // verus!
