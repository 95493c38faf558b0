//! The backend developer agent: the build–validate–repair loop.
//!
//! The agent owns code generation through working deployment. It walks
//! `Discovery -> Working -> UnitTesting -> Finished`, requesting code
//! from the oracle, gating execution behind a human safety check,
//! building, repairing compile failures up to a bounded budget, and
//! probing the freshly launched server's safe GET routes.
//!
//! Every transition is specified by [`BackendModel::step`], a total
//! description of the machine; [`BackendDeveloperAgent::on_event`] is
//! proved to implement it exactly, and the laws at the end of this file
//! are proved about it.

use vstd::prelude::*;

use crate::attributes::AgentAttributes;
use crate::attributes::AgentStatus;
use crate::errors::AgentFailure;
use crate::agents::protocol::AgentAction;
use crate::agents::protocol::AgentEvent;
use crate::agents::protocol::CodeGenTask;
use crate::model::endpoint_route::EndpointRoute;
use crate::model::endpoint_route::eligible_routes;
use crate::model::endpoint_route::filter_probe_routes;
use crate::model::project::Project;
use crate::model::project::ProjectModel;

verus! {

/// How many repairs of a failed build are tolerated. With the one
/// initial attempt this allows eleven builds in all; exceeding the
/// budget is fatal.
pub const REPAIR_BUDGET: u8 = 10;

/// The fine-grained position of the loop: which outcome it is waiting
/// for. The coarse `AgentStatus` is kept in step with it (see
/// [`BackendModel::wf`]).
#[derive(Debug, Clone, Copy, PartialEq, Eq, Structural)]
pub enum BackendPhase {
    /// Awaiting the first generated code (status `Discovery`).
    GeneratingInitialCode,
    /// Awaiting improved or repaired code (status `Working`).
    RevisingCode,
    /// Awaiting the human safety decision.
    AwaitingSafety,
    /// Awaiting the build outcome.
    Building,
    /// Awaiting the extracted endpoint schema.
    ExtractingEndpoints,
    /// Awaiting the server spawn outcome.
    Launching,
    /// Awaiting the end of the warm-up delay.
    WarmingUp,
    /// Awaiting the outcome of the probe of the current queue entry.
    Probing,
    /// Awaiting confirmation of the termination ordered after a failed
    /// probe; probing resumes afterwards.
    TerminatingAfterFailedProbe,
    /// Awaiting confirmation of the final, unconditional termination.
    WindingDown,
    /// Terminal: finished, or aborted on a fatal failure.
    Done,
}

/// The backend developer agent. Drive it by performing each returned
/// action and feeding the outcome to [`Self::on_event`].
pub struct BackendDeveloperAgent {
    pub attributes: AgentAttributes,
    /// The most recent build diagnostic, if any build has failed.
    pub bug_errors: Option<String>,
    /// How many consecutive builds have failed since the last success.
    pub bug_count: u8,
    /// What the agent is waiting for.
    pub phase: BackendPhase,
    /// The probe-eligible routes of the extracted schema, in order.
    pub probe_queue: Vec<EndpointRoute>,
    /// The queue index currently being probed (or, outside `Probing`,
    /// the next one to probe).
    pub next_probe: usize,
}

/// The mathematical value of the agent: the probe queue as a sequence.
#[verifier::ext_equal]
pub ghost struct BackendModel {
    pub attributes: AgentAttributes,
    pub bug_errors: Option<String>,
    pub bug_count: u8,
    pub phase: BackendPhase,
    pub probe_queue: Seq<EndpointRoute>,
    pub next_probe: int,
}

impl View for BackendDeveloperAgent {
    type V = BackendModel;

    open spec fn view(&self) -> BackendModel {
        BackendModel {
            attributes: self.attributes,
            bug_errors: self.bug_errors,
            bug_count: self.bug_count,
            phase: self.phase,
            probe_queue: self.probe_queue@,
            next_probe: self.next_probe as int,
        }
    }
}

impl BackendModel {
    /// Well-formedness: the probe index stays inside the queue, the bug
    /// counter respects the budget while the loop is alive, and the
    /// coarse status agrees with the phase.
    pub open spec fn wf(self) -> bool {
        &&& 0 <= self.next_probe <= self.probe_queue.len()
        &&& (self.phase is Probing ==> self.next_probe < self.probe_queue.len())
        &&& (!(self.phase is Done) ==> self.bug_count <= REPAIR_BUDGET)
        &&& self.bug_count <= REPAIR_BUDGET + 1
        &&& match self.phase {
            BackendPhase::GeneratingInitialCode => self.attributes.status == AgentStatus::Discovery,
            BackendPhase::RevisingCode => self.attributes.status == AgentStatus::Working,
            BackendPhase::Done => true,
            _ => self.attributes.status == AgentStatus::UnitTesting,
        }
    }

    /// Which events the machine is prepared to consume in this state:
    /// exactly the possible outcomes of the action it last emitted.
    pub open spec fn handles(self, event: AgentEvent) -> bool {
        match self.phase {
            BackendPhase::GeneratingInitialCode | BackendPhase::RevisingCode => {
                event is CodeReady || event is OracleUnavailable
            },
            BackendPhase::AwaitingSafety => event is SafetyDecision,
            BackendPhase::Building => event is BuildFinished,
            BackendPhase::ExtractingEndpoints => {
                event is EndpointsDecoded || event is ResponseUndecodable
                    || event is OracleUnavailable
            },
            BackendPhase::Launching => event is ServerSpawned,
            BackendPhase::WarmingUp => event is WarmedUp,
            BackendPhase::Probing => event is ProbeStatus || event is ProbeUnreachable,
            BackendPhase::TerminatingAfterFailedProbe | BackendPhase::WindingDown => {
                event is ServerTerminated
            },
            BackendPhase::Done => false,
        }
    }

    /// The transition function of the loop: from a state, the shared
    /// project and an event to the successor state, the updated project
    /// and the agent's answer. `None` exactly when the event is not one
    /// this state can consume.
    pub open spec fn step(self, p: ProjectModel, event: AgentEvent) -> Option<
        (BackendModel, ProjectModel, Result<AgentAction, AgentFailure>),
    > {
        match self.phase {
            BackendPhase::GeneratingInitialCode => match event {
                AgentEvent::CodeReady(code) => Some(
                    (
                        BackendModel {
                            attributes: AgentAttributes {
                                status: AgentStatus::Working,
                                ..self.attributes
                            },
                            phase: BackendPhase::RevisingCode,
                            ..self
                        },
                        ProjectModel { backend_code: Some(code), ..p },
                        Ok(AgentAction::RequestCode(CodeGenTask::ImproveCode)),
                    ),
                ),
                AgentEvent::OracleUnavailable => Some(
                    (
                        BackendModel { phase: BackendPhase::Done, ..self },
                        p,
                        Err(AgentFailure::TransportError),
                    ),
                ),
                _ => None,
            },
            BackendPhase::RevisingCode => match event {
                AgentEvent::CodeReady(code) => Some(
                    (
                        BackendModel {
                            attributes: AgentAttributes {
                                status: AgentStatus::UnitTesting,
                                ..self.attributes
                            },
                            phase: BackendPhase::AwaitingSafety,
                            ..self
                        },
                        ProjectModel { backend_code: Some(code), ..p },
                        Ok(AgentAction::AskSafety),
                    ),
                ),
                AgentEvent::OracleUnavailable => Some(
                    (
                        BackendModel { phase: BackendPhase::Done, ..self },
                        p,
                        Err(AgentFailure::TransportError),
                    ),
                ),
                _ => None,
            },
            BackendPhase::AwaitingSafety => match event {
                AgentEvent::SafetyDecision(approved) => {
                    if approved {
                        Some(
                            (
                                BackendModel { phase: BackendPhase::Building, ..self },
                                p,
                                Ok(AgentAction::RunBuild),
                            ),
                        )
                    } else {
                        Some(
                            (
                                BackendModel { phase: BackendPhase::Done, ..self },
                                p,
                                Err(AgentFailure::SafetyDeclined),
                            ),
                        )
                    }
                },
                _ => None,
            },
            BackendPhase::Building => match event {
                AgentEvent::BuildFinished(success, diagnostic) => {
                    if success {
                        Some(
                            (
                                BackendModel {
                                    bug_count: 0,
                                    phase: BackendPhase::ExtractingEndpoints,
                                    ..self
                                },
                                p,
                                Ok(AgentAction::RequestCode(CodeGenTask::ExtractEndpoints)),
                            ),
                        )
                    } else if self.bug_count >= REPAIR_BUDGET {
                        Some(
                            (
                                BackendModel {
                                    bug_count: (self.bug_count + 1) as u8,
                                    bug_errors: Some(diagnostic),
                                    phase: BackendPhase::Done,
                                    ..self
                                },
                                p,
                                Err(AgentFailure::BudgetExhausted),
                            ),
                        )
                    } else {
                        Some(
                            (
                                BackendModel {
                                    attributes: AgentAttributes {
                                        status: AgentStatus::Working,
                                        ..self.attributes
                                    },
                                    bug_count: (self.bug_count + 1) as u8,
                                    bug_errors: Some(diagnostic),
                                    phase: BackendPhase::RevisingCode,
                                    ..self
                                },
                                p,
                                Ok(AgentAction::RequestCode(CodeGenTask::FixCode)),
                            ),
                        )
                    }
                },
                _ => None,
            },
            BackendPhase::ExtractingEndpoints => match event {
                AgentEvent::EndpointsDecoded(routes) => Some(
                    (
                        BackendModel {
                            probe_queue: eligible_routes(routes@),
                            next_probe: 0,
                            phase: BackendPhase::Launching,
                            ..self
                        },
                        ProjectModel { api_endpoint_schema: Some(routes@), ..p },
                        Ok(AgentAction::SpawnServer),
                    ),
                ),
                AgentEvent::ResponseUndecodable => Some(
                    (
                        BackendModel { phase: BackendPhase::Done, ..self },
                        p,
                        Err(AgentFailure::DecodeError),
                    ),
                ),
                AgentEvent::OracleUnavailable => Some(
                    (
                        BackendModel { phase: BackendPhase::Done, ..self },
                        p,
                        Err(AgentFailure::TransportError),
                    ),
                ),
                _ => None,
            },
            BackendPhase::Launching => match event {
                AgentEvent::ServerSpawned(running) => {
                    if running {
                        Some(
                            (
                                BackendModel { phase: BackendPhase::WarmingUp, ..self },
                                p,
                                Ok(AgentAction::WaitWarmUp),
                            ),
                        )
                    } else {
                        Some(
                            (
                                BackendModel { phase: BackendPhase::Done, ..self },
                                p,
                                Err(AgentFailure::ProcessError),
                            ),
                        )
                    }
                },
                _ => None,
            },
            BackendPhase::WarmingUp => match event {
                AgentEvent::WarmedUp => Some(self.continue_probing(p)),
                _ => None,
            },
            BackendPhase::Probing => match event {
                AgentEvent::ProbeStatus(_status) => Some(
                    (BackendModel { next_probe: self.next_probe + 1, ..self }).continue_probing(p),
                ),
                AgentEvent::ProbeUnreachable => Some(
                    (
                        BackendModel {
                            next_probe: self.next_probe + 1,
                            phase: BackendPhase::TerminatingAfterFailedProbe,
                            ..self
                        },
                        p,
                        Ok(AgentAction::TerminateServer),
                    ),
                ),
                _ => None,
            },
            BackendPhase::TerminatingAfterFailedProbe => match event {
                AgentEvent::ServerTerminated => Some(self.continue_probing(p)),
                _ => None,
            },
            BackendPhase::WindingDown => match event {
                AgentEvent::ServerTerminated => Some(
                    (
                        BackendModel {
                            attributes: AgentAttributes {
                                status: AgentStatus::Finished,
                                ..self.attributes
                            },
                            phase: BackendPhase::Done,
                            ..self
                        },
                        p,
                        Ok(AgentAction::Complete),
                    ),
                ),
                _ => None,
            },
            BackendPhase::Done => None,
        }
    }

    /// Probe the next queued route if one is left, else wind down with
    /// the final, unconditional termination order.
    pub open spec fn continue_probing(self, p: ProjectModel) -> (
        BackendModel,
        ProjectModel,
        Result<AgentAction, AgentFailure>,
    ) {
        if self.next_probe < self.probe_queue.len() {
            (
                BackendModel { phase: BackendPhase::Probing, ..self },
                p,
                Ok(AgentAction::ProbeUrl(self.probe_queue[self.next_probe].route)),
            )
        } else {
            (
                BackendModel { phase: BackendPhase::WindingDown, ..self },
                p,
                Ok(AgentAction::TerminateServer),
            )
        }
    }
}

impl BackendDeveloperAgent {
    /// A fresh backend developer, ready to request the first cut of
    /// generated code.
    pub fn new() -> (agent: Self)
        ensures
            agent.attributes.objective@ == "Develops backend code for webserver and JSON database."@,
            agent.attributes.position@ == "Backend Developer"@,
            agent.attributes.status == AgentStatus::Discovery,
            agent.bug_errors is None,
            agent.bug_count == 0,
            agent.phase == BackendPhase::GeneratingInitialCode,
            agent.probe_queue@.len() == 0,
            agent.next_probe == 0,
            agent@.wf(),
    {
        let attributes = AgentAttributes {
            objective: "Develops backend code for webserver and JSON database.".to_owned(),
            position: "Backend Developer".to_owned(),
            status: AgentStatus::Discovery,
        };
        BackendDeveloperAgent {
            attributes,
            bug_errors: None,
            bug_count: 0,
            phase: BackendPhase::GeneratingInitialCode,
            probe_queue: Vec::new(),
            next_probe: 0,
        }
    }

    /// The action that sets this agent going.
    pub fn initial_action(&self) -> (r: AgentAction)
        ensures
            r == AgentAction::RequestCode(CodeGenTask::InitialCode),
    {
        AgentAction::RequestCode(CodeGenTask::InitialCode)
    }

    /// Consume the outcome of the last action and answer with the next
    /// action, exactly as [`BackendModel::step`] describes.
    pub fn on_event(&mut self, project: &mut Project, event: AgentEvent) -> (r: Result<
        AgentAction,
        AgentFailure,
    >)
        requires
            old(self)@.wf(),
            old(self)@.handles(event),
        ensures
            old(self)@.step(old(project)@, event) == Some(
                (final(self)@, final(project)@, r),
            ),
            final(self)@.wf(),
    {
        match self.phase {
            BackendPhase::GeneratingInitialCode => match event {
                AgentEvent::CodeReady(code) => {
                    project.backend_code = Some(code);
                    self.attributes.status = AgentStatus::Working;
                    self.phase = BackendPhase::RevisingCode;
                    Ok(AgentAction::RequestCode(CodeGenTask::ImproveCode))
                },
                AgentEvent::OracleUnavailable => {
                    self.phase = BackendPhase::Done;
                    Err(AgentFailure::TransportError)
                },
                _ => vstd::pervasive::unreached(),
            },
            BackendPhase::RevisingCode => match event {
                AgentEvent::CodeReady(code) => {
                    project.backend_code = Some(code);
                    self.attributes.status = AgentStatus::UnitTesting;
                    self.phase = BackendPhase::AwaitingSafety;
                    Ok(AgentAction::AskSafety)
                },
                AgentEvent::OracleUnavailable => {
                    self.phase = BackendPhase::Done;
                    Err(AgentFailure::TransportError)
                },
                _ => vstd::pervasive::unreached(),
            },
            BackendPhase::AwaitingSafety => match event {
                AgentEvent::SafetyDecision(approved) => {
                    if approved {
                        self.phase = BackendPhase::Building;
                        Ok(AgentAction::RunBuild)
                    } else {
                        self.phase = BackendPhase::Done;
                        Err(AgentFailure::SafetyDeclined)
                    }
                },
                _ => vstd::pervasive::unreached(),
            },
            BackendPhase::Building => match event {
                AgentEvent::BuildFinished(success, diagnostic) => {
                    if success {
                        self.bug_count = 0;
                        self.phase = BackendPhase::ExtractingEndpoints;
                        Ok(AgentAction::RequestCode(CodeGenTask::ExtractEndpoints))
                    } else if self.bug_count >= REPAIR_BUDGET {
                        self.bug_count = self.bug_count + 1;
                        self.bug_errors = Some(diagnostic);
                        self.phase = BackendPhase::Done;
                        Err(AgentFailure::BudgetExhausted)
                    } else {
                        self.bug_count = self.bug_count + 1;
                        self.bug_errors = Some(diagnostic);
                        self.attributes.status = AgentStatus::Working;
                        self.phase = BackendPhase::RevisingCode;
                        Ok(AgentAction::RequestCode(CodeGenTask::FixCode))
                    }
                },
                _ => vstd::pervasive::unreached(),
            },
            BackendPhase::ExtractingEndpoints => match event {
                AgentEvent::EndpointsDecoded(routes) => {
                    self.probe_queue = filter_probe_routes(&routes);
                    self.next_probe = 0;
                    self.phase = BackendPhase::Launching;
                    project.api_endpoint_schema = Some(routes);
                    Ok(AgentAction::SpawnServer)
                },
                AgentEvent::ResponseUndecodable => {
                    self.phase = BackendPhase::Done;
                    Err(AgentFailure::DecodeError)
                },
                AgentEvent::OracleUnavailable => {
                    self.phase = BackendPhase::Done;
                    Err(AgentFailure::TransportError)
                },
                _ => vstd::pervasive::unreached(),
            },
            BackendPhase::Launching => match event {
                AgentEvent::ServerSpawned(running) => {
                    if running {
                        self.phase = BackendPhase::WarmingUp;
                        Ok(AgentAction::WaitWarmUp)
                    } else {
                        self.phase = BackendPhase::Done;
                        Err(AgentFailure::ProcessError)
                    }
                },
                _ => vstd::pervasive::unreached(),
            },
            BackendPhase::WarmingUp => match event {
                AgentEvent::WarmedUp => self.continue_probing(),
                _ => vstd::pervasive::unreached(),
            },
            BackendPhase::Probing => match event {
                AgentEvent::ProbeStatus(_status) => {
                    proof {
                        assert(old(self)@.phase is Probing);
                        assert(self.next_probe < self.probe_queue.len());
                    }
                    self.next_probe = self.next_probe + 1;
                    self.continue_probing()
                },
                AgentEvent::ProbeUnreachable => {
                    proof {
                        assert(old(self)@.phase is Probing);
                        assert(self.next_probe < self.probe_queue.len());
                    }
                    self.next_probe = self.next_probe + 1;
                    self.phase = BackendPhase::TerminatingAfterFailedProbe;
                    Ok(AgentAction::TerminateServer)
                },
                _ => vstd::pervasive::unreached(),
            },
            BackendPhase::TerminatingAfterFailedProbe => match event {
                AgentEvent::ServerTerminated => self.continue_probing(),
                _ => vstd::pervasive::unreached(),
            },
            BackendPhase::WindingDown => match event {
                AgentEvent::ServerTerminated => {
                    self.attributes.status = AgentStatus::Finished;
                    self.phase = BackendPhase::Done;
                    Ok(AgentAction::Complete)
                },
                _ => vstd::pervasive::unreached(),
            },
            BackendPhase::Done => vstd::pervasive::unreached(),
        }
    }

    /// Probe the next queued route, or order the final termination and
    /// wind down.
    fn continue_probing(&mut self) -> (r: Result<AgentAction, AgentFailure>)
        requires
            0 <= old(self)@.next_probe <= old(self)@.probe_queue.len(),
        ensures
            forall|p: ProjectModel|
                #[trigger] old(self)@.continue_probing(p) == (final(self)@, p, r),
    {
        if self.next_probe < self.probe_queue.len() {
            self.phase = BackendPhase::Probing;
            Ok(AgentAction::ProbeUrl(self.probe_queue[self.next_probe].route.clone()))
        } else {
            self.phase = BackendPhase::WindingDown;
            Ok(AgentAction::TerminateServer)
        }
    }
}

/// Whether the spawned server of the current validation pass may still
/// be running: from the moment the spawn is confirmed until the step
/// that orders the final termination.
pub open spec fn server_live(m: BackendModel) -> bool {
    m.phase is WarmingUp || m.phase is Probing || m.phase is TerminatingAfterFailedProbe
}

/// The machine has a transition for an event exactly when the event is
/// one of the possible outcomes of the action it last emitted.
pub proof fn lemma_backend_handles_iff_step_defined(
    m: BackendModel,
    p: ProjectModel,
    event: AgentEvent,
)
    ensures
        m.step(p, event) is Some <==> m.handles(event),
{
}

/// Every step of the machine preserves well-formedness.
pub proof fn lemma_step_preserves_wf(m: BackendModel, p: ProjectModel, event: AgentEvent)
    requires
        m.wf(),
        m.step(p, event) is Some,
    ensures
        m.step(p, event)->Some_0.0.wf(),
{
}

/// A state that has reached `Done` accepts no further event: after a
/// fatal abort or completion nothing more is attempted, in particular
/// no further build.
pub proof fn lemma_done_is_terminal(m: BackendModel, p: ProjectModel, event: AgentEvent)
    requires
        m.phase is Done,
    ensures
        m.step(p, event) is None,
{
}

/// For every successful build, the bug counter is zero immediately
/// after the transition into the post-build step, whatever its value on
/// entering validation.
pub proof fn lemma_build_success_resets_bug_count(
    m: BackendModel,
    p: ProjectModel,
    diagnostic: String,
)
    requires
        m.wf(),
        m.phase is Building,
    ensures
        m.step(p, AgentEvent::BuildFinished(true, diagnostic)) == Some(
            (
                BackendModel { bug_count: 0, phase: BackendPhase::ExtractingEndpoints, ..m },
                p,
                Ok::<AgentAction, AgentFailure>(
                    AgentAction::RequestCode(CodeGenTask::ExtractEndpoints),
                ),
            ),
        ),
{
}

/// A failed build within the budget raises the bug counter by one,
/// records the diagnostic, and sends the loop back to the working state
/// for a repair — it does not abort.
pub proof fn lemma_build_failure_within_budget(
    m: BackendModel,
    p: ProjectModel,
    diagnostic: String,
)
    requires
        m.wf(),
        m.phase is Building,
        m.bug_count < REPAIR_BUDGET,
    ensures
        m.step(p, AgentEvent::BuildFinished(false, diagnostic)) == Some(
            (
                BackendModel {
                    attributes: AgentAttributes { status: AgentStatus::Working, ..m.attributes },
                    bug_count: (m.bug_count + 1) as u8,
                    bug_errors: Some(diagnostic),
                    phase: BackendPhase::RevisingCode,
                    ..m
                },
                p,
                Ok::<AgentAction, AgentFailure>(AgentAction::RequestCode(CodeGenTask::FixCode)),
            ),
        ),
{
}

/// The failure that takes the counter past the budget aborts fatally
/// with `BudgetExhausted`; together with [`lemma_done_is_terminal`] the
/// loop never attempts another build afterwards.
pub proof fn lemma_budget_exhausted(m: BackendModel, p: ProjectModel, diagnostic: String)
    requires
        m.wf(),
        m.phase is Building,
        m.bug_count == REPAIR_BUDGET,
    ensures
        m.step(p, AgentEvent::BuildFinished(false, diagnostic)) == Some(
            (
                BackendModel {
                    bug_count: (REPAIR_BUDGET + 1) as u8,
                    bug_errors: Some(diagnostic),
                    phase: BackendPhase::Done,
                    ..m
                },
                p,
                Err::<AgentAction, AgentFailure>(AgentFailure::BudgetExhausted),
            ),
        ),
{
}

/// One full repair cycle per entry: a failed build (with the given
/// diagnostic), the repaired code, and a renewed safety approval, ending
/// at the next build attempt. `None` if any step of a cycle is refused.
pub open spec fn after_repair_cycles(
    m: BackendModel,
    p: ProjectModel,
    diagnostics: Seq<String>,
    fixes: Seq<String>,
) -> Option<(BackendModel, ProjectModel)>
    decreases diagnostics.len(),
{
    if diagnostics.len() == 0 {
        Some((m, p))
    } else {
        match m.step(p, AgentEvent::BuildFinished(false, diagnostics[0])) {
            None => None,
            Some((m1, p1, _r1)) => match m1.step(p1, AgentEvent::CodeReady(fixes[0])) {
                None => None,
                Some((m2, p2, _r2)) => match m2.step(p2, AgentEvent::SafetyDecision(true)) {
                    None => None,
                    Some((m3, p3, _r3)) => after_repair_cycles(
                        m3,
                        p3,
                        diagnostics.drop_first(),
                        fixes.drop_first(),
                    ),
                },
            },
        }
    }
}

/// After N consecutive failed builds within the budget the bug counter
/// reads exactly N more than on entry, the loop is back at a build
/// attempt, and no cycle aborted. With
/// [`lemma_budget_exhausted`] this pins the abort point: the loop aborts
/// fatally if and only if the consecutive failures exceed the budget.
pub proof fn lemma_consecutive_failures_counted(
    m: BackendModel,
    p: ProjectModel,
    diagnostics: Seq<String>,
    fixes: Seq<String>,
)
    requires
        m.wf(),
        m.phase is Building,
        diagnostics.len() == fixes.len(),
        m.bug_count + diagnostics.len() <= REPAIR_BUDGET,
    ensures
        after_repair_cycles(m, p, diagnostics, fixes) is Some,
        after_repair_cycles(m, p, diagnostics, fixes)->Some_0.0.wf(),
        after_repair_cycles(m, p, diagnostics, fixes)->Some_0.0.phase is Building,
        after_repair_cycles(m, p, diagnostics, fixes)->Some_0.0.bug_count == m.bug_count
            + diagnostics.len(),
    decreases diagnostics.len(),
{
    if diagnostics.len() == 0 {
    } else {
        let m1 = BackendModel {
            attributes: AgentAttributes { status: AgentStatus::Working, ..m.attributes },
            bug_count: (m.bug_count + 1) as u8,
            bug_errors: Some(diagnostics[0]),
            phase: BackendPhase::RevisingCode,
            ..m
        };
        let m2 = BackendModel {
            attributes: AgentAttributes { status: AgentStatus::UnitTesting, ..m1.attributes },
            phase: BackendPhase::AwaitingSafety,
            ..m1
        };
        let m3 = BackendModel { phase: BackendPhase::Building, ..m2 };
        let p1 = ProjectModel { backend_code: Some(fixes[0]), ..p };
        assert(m.step(p, AgentEvent::BuildFinished(false, diagnostics[0]))->Some_0.0 == m1);
        assert(m1.step(p, AgentEvent::CodeReady(fixes[0]))->Some_0.0 == m2);
        assert(m2.step(p1, AgentEvent::SafetyDecision(true))->Some_0.0 == m3);
        lemma_consecutive_failures_counted(m3, p1, diagnostics.drop_first(), fixes.drop_first());
    }
}

/// Eleven consecutive build failures abort the run: ten repair cycles
/// fill the budget, the eleventh failure answers `BudgetExhausted`, and
/// the machine then accepts no event at all — a twelfth build attempt
/// can never happen.
pub proof fn lemma_eleventh_failure_aborts(
    m: BackendModel,
    p: ProjectModel,
    diagnostics: Seq<String>,
    fixes: Seq<String>,
    last_diagnostic: String,
)
    requires
        m.wf(),
        m.phase is Building,
        m.bug_count == 0,
        diagnostics.len() == REPAIR_BUDGET,
        fixes.len() == REPAIR_BUDGET,
    ensures
        after_repair_cycles(m, p, diagnostics, fixes) is Some,
        ({
            let (m10, p10) = after_repair_cycles(m, p, diagnostics, fixes)->Some_0;
            let last = AgentEvent::BuildFinished(false, last_diagnostic);
            &&& m10.step(p10, last) is Some
            &&& m10.step(p10, last)->Some_0.2 == Err::<AgentAction, AgentFailure>(
                AgentFailure::BudgetExhausted,
            )
            &&& forall|event: AgentEvent|
                m10.step(p10, last)->Some_0.0.step(p10, event) is None
        }),
{
    lemma_consecutive_failures_counted(m, p, diagnostics, fixes);
    let (m10, p10) = after_repair_cycles(m, p, diagnostics, fixes)->Some_0;
    let last = AgentEvent::BuildFinished(false, last_diagnostic);
    lemma_budget_exhausted(m10, p10, last_diagnostic);
    assert forall|event: AgentEvent| m10.step(p10, last)->Some_0.0.step(p10, event) is None by {
        lemma_done_is_terminal(m10.step(p10, last)->Some_0.0, p10, event);
    }
}

/// After a successful build the machine emits, in order: the schema
/// request, the spawn order, the single warm-up wait, and only then the
/// first probe (if any route of the extracted schema is eligible). The
/// warm-up wait occurs exactly once per successful build, strictly
/// before the first probe; [`lemma_warmup_only_on_launch`] shows no
/// other transition emits it.
pub proof fn lemma_warmup_once_before_first_probe(
    m: BackendModel,
    p: ProjectModel,
    diagnostic: String,
    routes: Vec<EndpointRoute>,
)
    requires
        m.wf(),
        m.phase is Building,
    ensures
        ({
            let m1 = BackendModel { bug_count: 0, phase: BackendPhase::ExtractingEndpoints, ..m };
            let m2 = BackendModel {
                probe_queue: eligible_routes(routes@),
                next_probe: 0,
                phase: BackendPhase::Launching,
                ..m1
            };
            let p2 = ProjectModel { api_endpoint_schema: Some(routes@), ..p };
            let m3 = BackendModel { phase: BackendPhase::WarmingUp, ..m2 };
            &&& m.step(p, AgentEvent::BuildFinished(true, diagnostic)) == Some(
                (
                    m1,
                    p,
                    Ok::<AgentAction, AgentFailure>(
                        AgentAction::RequestCode(CodeGenTask::ExtractEndpoints),
                    ),
                ),
            )
            &&& m1.step(p, AgentEvent::EndpointsDecoded(routes)) == Some(
                (m2, p2, Ok::<AgentAction, AgentFailure>(AgentAction::SpawnServer)),
            )
            &&& m2.step(p2, AgentEvent::ServerSpawned(true)) == Some(
                (m3, p2, Ok::<AgentAction, AgentFailure>(AgentAction::WaitWarmUp)),
            )
            &&& eligible_routes(routes@).len() > 0 ==> m3.step(p2, AgentEvent::WarmedUp) == Some(
                (
                    BackendModel { phase: BackendPhase::Probing, ..m3 },
                    p2,
                    Ok::<AgentAction, AgentFailure>(
                        AgentAction::ProbeUrl(eligible_routes(routes@)[0].route),
                    ),
                ),
            )
            &&& eligible_routes(routes@).len() == 0 ==> m3.step(p2, AgentEvent::WarmedUp) == Some(
                (
                    BackendModel { phase: BackendPhase::WindingDown, ..m3 },
                    p2,
                    Ok::<AgentAction, AgentFailure>(AgentAction::TerminateServer),
                ),
            )
        }),
{
}

/// A probe is only emitted by the warmed-up or probing part of a
/// validation pass: no route is ever probed before the warm-up of its
/// build has elapsed.
pub proof fn lemma_probe_only_after_warmup(m: BackendModel, p: ProjectModel, event: AgentEvent)
    requires
        m.step(p, event) is Some,
    ensures
        (m.step(p, event)->Some_0.2 matches Ok(AgentAction::ProbeUrl(_))) ==> (m.phase
            is WarmingUp || m.phase is Probing || m.phase is TerminatingAfterFailedProbe),
{
}

/// The warm-up wait is emitted exactly on the transition that confirms
/// the spawn — once per launch, and hence once per successful build.
pub proof fn lemma_warmup_only_on_launch(m: BackendModel, p: ProjectModel, event: AgentEvent)
    requires
        m.step(p, event) is Some,
    ensures
        (m.step(p, event)->Some_0.2 == Ok::<AgentAction, AgentFailure>(AgentAction::WaitWarmUp))
            <==> (m.phase is Launching && event == AgentEvent::ServerSpawned(true)),
{
}

/// While the server may still be running the agent is not finished, and
/// a step either keeps the server tracked or emits a termination order.
pub proof fn lemma_live_server_step(m: BackendModel, p: ProjectModel, event: AgentEvent)
    requires
        m.wf(),
        server_live(m),
        m.step(p, event) is Some,
    ensures
        m.attributes.status != AgentStatus::Finished,
        server_live(m.step(p, event)->Some_0.0) || m.step(p, event)->Some_0.2 == Ok::<
            AgentAction,
            AgentFailure,
        >(AgentAction::TerminateServer),
{
}

/// The final state and emitted answers of a run of the machine over a
/// sequence of events; `None` if some event is not one its state then
/// handles.
pub open spec fn run_steps(m: BackendModel, p: ProjectModel, events: Seq<AgentEvent>) -> Option<
    (BackendModel, ProjectModel, Seq<Result<AgentAction, AgentFailure>>),
>
    decreases events.len(),
{
    if events.len() == 0 {
        Some((m, p, Seq::empty()))
    } else {
        match m.step(p, events[0]) {
            None => None,
            Some((m1, p1, r)) => match run_steps(m1, p1, events.drop_first()) {
                None => None,
                Some((mf, pf, rs)) => Some((mf, pf, seq![r] + rs)),
            },
        }
    }
}

/// Whether an emitted answer is the warm-up wait.
pub open spec fn is_warmup(r: Result<AgentAction, AgentFailure>) -> bool {
    r == Ok::<AgentAction, AgentFailure>(AgentAction::WaitWarmUp)
}

/// Whether an emitted answer is a probe.
pub open spec fn is_probe(r: Result<AgentAction, AgentFailure>) -> bool {
    r matches Ok(AgentAction::ProbeUrl(_))
}

/// How many warm-up waits a sequence of answers contains.
pub open spec fn warmup_count(outputs: Seq<Result<AgentAction, AgentFailure>>) -> nat
    decreases outputs.len(),
{
    if outputs.len() == 0 {
        0
    } else {
        (if is_warmup(outputs[0]) {
            1nat
        } else {
            0nat
        }) + warmup_count(outputs.drop_first())
    }
}

/// Once the warm-up of the current build has elapsed, no further
/// warm-up wait is ever emitted: the remaining run of the validation
/// pass contains none.
pub proof fn lemma_no_warmup_after_warmup(
    m: BackendModel,
    p: ProjectModel,
    events: Seq<AgentEvent>,
)
    requires
        m.wf(),
        m.phase is WarmingUp || m.phase is Probing || m.phase is TerminatingAfterFailedProbe
            || m.phase is WindingDown || m.phase is Done,
        run_steps(m, p, events) is Some,
    ensures
        warmup_count(run_steps(m, p, events)->Some_0.2) == 0,
    decreases events.len(),
{
    if events.len() == 0 {
    } else {
        let (m1, p1, r) = m.step(p, events[0])->Some_0;
        lemma_step_preserves_wf(m, p, events[0]);
        lemma_no_warmup_after_warmup(m1, p1, events.drop_first());
        let outputs = run_steps(m, p, events)->Some_0.2;
        let rs = run_steps(m1, p1, events.drop_first())->Some_0.2;
        assert(outputs.drop_first() =~= rs);
    }
}

/// The warm-up of a successful build happens exactly once, strictly
/// before the first probe: in any run of the machine from the state
/// just after a successful build (or after the spawn order), the
/// warm-up wait is emitted at most once, every probe comes strictly
/// after a warm-up wait, and as soon as any probe occurs the warm-up
/// was emitted exactly once.
pub proof fn lemma_warmup_exactly_once_before_probes(
    m: BackendModel,
    p: ProjectModel,
    events: Seq<AgentEvent>,
)
    requires
        m.wf(),
        m.phase is ExtractingEndpoints || m.phase is Launching,
        run_steps(m, p, events) is Some,
    ensures
        warmup_count(run_steps(m, p, events)->Some_0.2) <= 1,
        forall|k: int|
            0 <= k < run_steps(m, p, events)->Some_0.2.len() && is_probe(
                #[trigger] run_steps(m, p, events)->Some_0.2[k],
            ) ==> exists|j: int|
                0 <= j < k && is_warmup(#[trigger] run_steps(m, p, events)->Some_0.2[j]),
        (exists|k: int|
            0 <= k < run_steps(m, p, events)->Some_0.2.len() && is_probe(
                #[trigger] run_steps(m, p, events)->Some_0.2[k],
            )) ==> warmup_count(run_steps(m, p, events)->Some_0.2) == 1,
    decreases events.len(),
{
    if events.len() == 0 {
    } else {
        let (m1, p1, r) = m.step(p, events[0])->Some_0;
        lemma_step_preserves_wf(m, p, events[0]);
        let outputs = run_steps(m, p, events)->Some_0.2;
        let rs = run_steps(m1, p1, events.drop_first())->Some_0.2;
        assert(outputs.drop_first() =~= rs);
        assert(outputs[0] == r);
        if m1.phase is ExtractingEndpoints || m1.phase is Launching {
            // Still before the launch: this step emitted neither the
            // warm-up nor a probe.
            lemma_warmup_exactly_once_before_probes(m1, p1, events.drop_first());
            assert forall|k: int|
                0 <= k < outputs.len() && is_probe(#[trigger] outputs[k]) implies exists|j: int|
                0 <= j < k && is_warmup(#[trigger] outputs[j]) by {
                assert(k > 0);
                assert(is_probe(rs[k - 1]));
                let j0 = choose|j0: int| 0 <= j0 < k - 1 && is_warmup(#[trigger] rs[j0]);
                assert(is_warmup(outputs[j0 + 1]));
            }
            if exists|k: int| 0 <= k < outputs.len() && is_probe(#[trigger] outputs[k]) {
                let k = choose|k: int| 0 <= k < outputs.len() && is_probe(#[trigger] outputs[k]);
                assert(is_probe(rs[k - 1]));
            }
        } else {
            // The machine left the pre-launch states: either the spawn
            // was confirmed, emitting the one warm-up, or the pass
            // aborted and nothing further is accepted.
            lemma_no_warmup_after_warmup(m1, p1, events.drop_first());
            if m1.phase is Done {
                assert(events.drop_first().len() == 0) by {
                    if events.drop_first().len() > 0 {
                        lemma_done_is_terminal(m1, p1, events.drop_first()[0]);
                    }
                }
                assert(rs.len() == 0);
            } else {
                assert(m1.phase is WarmingUp);
                assert(is_warmup(r));
                assert forall|k: int|
                    0 <= k < outputs.len() && is_probe(#[trigger] outputs[k]) implies exists|
                    j: int,
                |
                    0 <= j < k && is_warmup(#[trigger] outputs[j]) by {
                    assert(k > 0);
                    assert(is_warmup(outputs[0]));
                }
            }
        }
    }
}

/// Once the server is spawned, `terminate` is ordered at least once on
/// every exit path: any run that takes the machine from a state with a
/// live server to its terminal state contains a `TerminateServer`
/// answer.
pub proof fn lemma_terminate_on_every_exit(
    m: BackendModel,
    p: ProjectModel,
    events: Seq<AgentEvent>,
)
    requires
        m.wf(),
        server_live(m),
        run_steps(m, p, events) is Some,
        run_steps(m, p, events)->Some_0.0.phase is Done,
    ensures
        ({
            let outputs = run_steps(m, p, events)->Some_0.2;
            exists|i: int|
                0 <= i < outputs.len() && outputs[i] == Ok::<AgentAction, AgentFailure>(
                    AgentAction::TerminateServer,
                )
        }),
    decreases events.len(),
{
    if events.len() == 0 {
        assert(false);
    } else {
        let (m1, p1, r) = m.step(p, events[0])->Some_0;
        lemma_live_server_step(m, p, events[0]);
        lemma_step_preserves_wf(m, p, events[0]);
        let outputs = run_steps(m, p, events)->Some_0.2;
        let rs = run_steps(m1, p1, events.drop_first())->Some_0.2;
        if r == Ok::<AgentAction, AgentFailure>(AgentAction::TerminateServer) {
            assert(outputs[0] == r);
        } else {
            lemma_terminate_on_every_exit(m1, p1, events.drop_first());
            let i = choose|i: int|
                0 <= i < rs.len() && rs[i] == Ok::<AgentAction, AgentFailure>(
                    AgentAction::TerminateServer,
                );
            assert(outputs[i + 1] == rs[i]);
        }
    }
}

} // verus!
