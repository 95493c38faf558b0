//! The event/action protocol between the agent state machines and the
//! driver that performs outside work for them.

use vstd::prelude::*;

use crate::model::endpoint_route::EndpointRoute;
use crate::model::project_scope::ProjectScope;

verus! {

/// Seconds waited between launching a generated server and the first
/// probe, to tolerate server startup latency.
pub const WARM_UP_SECONDS: u64 = 5;

/// Client-side timeout, in seconds, for a single probe request.
pub const PROBE_TIMEOUT_SECONDS: u64 = 5;

/// Which oracle task a code request stands for.
#[derive(Debug, Clone, Copy, PartialEq, Eq, Structural)]
pub enum CodeGenTask {
    /// Generate the first cut of the backend from the code template and
    /// the project description.
    InitialCode,
    /// Improve the current code using the full project record.
    ImproveCode,
    /// Repair the current code using the last recorded build diagnostic.
    FixCode,
    /// Extract the REST endpoint schema from the generated source.
    ExtractEndpoints,
}

/// What an agent asks its driver to do next. The driver performs the
/// action and reports the outcome as the next [`AgentEvent`].
#[derive(Debug, PartialEq, Eq)]
pub enum AgentAction {
    /// Ask the oracle for the structured project scope.
    RequestScope,
    /// Ask the oracle for the list of external site URLs.
    RequestUrls,
    /// Ask the oracle for generated code or an endpoint schema.
    RequestCode(CodeGenTask),
    /// Put the safety gate to the human: may generated code be run?
    AskSafety,
    /// Build the generated project synchronously and report the outcome.
    RunBuild,
    /// Spawn the generated server as a long-lived background process.
    SpawnServer,
    /// Wait the fixed warm-up delay of [`WARM_UP_SECONDS`] seconds.
    WaitWarmUp,
    /// Issue one GET request against this URL (or local route path) with
    /// a client timeout of [`PROBE_TIMEOUT_SECONDS`] seconds.
    ProbeUrl(String),
    /// Terminate the spawned server process. Termination must be
    /// idempotent: ordering it for an already-dead process is normal.
    TerminateServer,
    /// The agent has reached its finished state; nothing more to do.
    Complete,
}

/// The outcome of the previously requested action.
pub enum AgentEvent {
    /// The oracle answered a scope request and the answer decoded.
    ScopeReady(ProjectScope),
    /// The oracle answered a URL-list request and the answer decoded.
    UrlsReady(Vec<String>),
    /// The oracle answered a code request.
    CodeReady(String),
    /// The oracle answered an endpoint-schema request and the answer
    /// decoded into routes.
    EndpointsDecoded(Vec<EndpointRoute>),
    /// The oracle answered, but the structured answer did not decode.
    ResponseUndecodable,
    /// The oracle could not be reached, even after its one retry.
    OracleUnavailable,
    /// The human answered the safety gate: `true` means proceed.
    SafetyDecision(bool),
    /// The build finished: success flag and captured diagnostic text.
    BuildFinished(bool, String),
    /// The server spawn attempt finished: `true` means it is running.
    ServerSpawned(bool),
    /// The warm-up delay has elapsed.
    WarmedUp,
    /// The probe got an HTTP response with this status code.
    ProbeStatus(u16),
    /// The probe failed at the transport level (connection refused,
    /// timeout): evidence the probed server is unusable.
    ProbeUnreachable,
    /// The termination order was carried out.
    ServerTerminated,
}

} // verus!
