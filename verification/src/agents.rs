//! The agents of the pipeline and the protocol they speak.
//!
//! Each agent is a state machine: it is driven by feeding it the outcome
//! of the previous action as an [`protocol::AgentEvent`] and performing
//! the [`protocol::AgentAction`] it answers with. All decisions are made
//! here, under contract; performing an action (an oracle request, a
//! build, a probe, a process spawn) is the driver's job.

pub mod ai_functions;
pub mod architect_agent;
pub mod backend_agent;
pub mod managing_agent;
pub mod protocol;
