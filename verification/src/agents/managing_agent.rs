//! The sequencer: builds the ordered agent list and runs each agent to
//! completion, one after another, against the one shared project record.
//!
//! The agent set is fixed and known ahead of time, so the agents are a
//! closed tagged variant dispatched through one interface; the sequencer
//! never looks at their internals.
//!
//! Failure policy: a completed agent's failure is observed — recorded in
//! [`ManagingAgent::observed_failures`] — and the remaining sequence
//! still runs, preserving the documented hand-off behaviour. The one
//! exception is the declined safety gate, which is fatal for the entire
//! run and abandons the sequence at once.

use vstd::prelude::*;

use crate::attributes::AgentAttributes;
use crate::attributes::AgentStatus;
use crate::errors::AgentFailure;
use crate::agents::architect_agent::ArchitectModel;
use crate::agents::architect_agent::SolutionArchitectAgent;
use crate::agents::backend_agent::BackendDeveloperAgent;
use crate::agents::backend_agent::BackendModel;
use crate::agents::protocol::AgentAction;
use crate::agents::protocol::AgentEvent;
use crate::agents::protocol::CodeGenTask;
use crate::model::project::Project;
use crate::model::project::ProjectModel;

verus! {

/// The closed set of agents the sequencer can run.
pub enum AgentKind {
    Architect(SolutionArchitectAgent),
    Backend(BackendDeveloperAgent),
}

/// The mathematical value of an agent of either kind.
pub ghost enum AgentKindModel {
    Architect(ArchitectModel),
    Backend(BackendModel),
}

impl View for AgentKind {
    type V = AgentKindModel;

    open spec fn view(&self) -> AgentKindModel {
        match self {
            AgentKind::Architect(agent) => AgentKindModel::Architect(agent@),
            AgentKind::Backend(agent) => AgentKindModel::Backend(agent@),
        }
    }
}

impl AgentKindModel {
    pub open spec fn wf(self) -> bool {
        match self {
            AgentKindModel::Architect(agent) => agent.wf(),
            AgentKindModel::Backend(agent) => agent.wf(),
        }
    }

    pub open spec fn compatible(self, p: ProjectModel) -> bool {
        match self {
            AgentKindModel::Architect(agent) => agent.compatible(p),
            AgentKindModel::Backend(_) => true,
        }
    }

    pub open spec fn handles(self, event: AgentEvent) -> bool {
        match self {
            AgentKindModel::Architect(agent) => agent.handles(event),
            AgentKindModel::Backend(agent) => agent.handles(event),
        }
    }

    /// The action that sets an agent of this kind going.
    pub open spec fn spec_initial_action(self) -> AgentAction {
        match self {
            AgentKindModel::Architect(_) => AgentAction::RequestScope,
            AgentKindModel::Backend(_) => AgentAction::RequestCode(CodeGenTask::InitialCode),
        }
    }

    /// One transition of the underlying agent.
    pub open spec fn step(self, p: ProjectModel, event: AgentEvent) -> Option<
        (AgentKindModel, ProjectModel, Result<AgentAction, AgentFailure>),
    > {
        match self {
            AgentKindModel::Architect(agent) => match agent.step(p, event) {
                None => None,
                Some((a2, p2, r)) => Some((AgentKindModel::Architect(a2), p2, r)),
            },
            AgentKindModel::Backend(agent) => match agent.step(p, event) {
                None => None,
                Some((a2, p2, r)) => Some((AgentKindModel::Backend(a2), p2, r)),
            },
        }
    }
}

impl AgentKind {
    /// The action that sets this agent going.
    pub fn initial_action(&self) -> (r: AgentAction)
        ensures
            r == self@.spec_initial_action(),
    {
        match self {
            AgentKind::Architect(agent) => agent.initial_action(),
            AgentKind::Backend(agent) => agent.initial_action(),
        }
    }

    /// Consume the outcome of the last action and answer with the next
    /// action, exactly as [`AgentKindModel::step`] describes.
    pub fn on_event(self, project: &mut Project, event: AgentEvent) -> (r: (
        AgentKind,
        Result<AgentAction, AgentFailure>,
    ))
        requires
            self@.wf(),
            self@.compatible(old(project)@),
            self@.handles(event),
        ensures
            self@.step(old(project)@, event) == Some((r.0@, final(project)@, r.1)),
            r.0@.wf(),
            r.0@.compatible(final(project)@),
    {
        match self {
            AgentKind::Architect(mut agent) => {
                let r = agent.on_event(project, event);
                (AgentKind::Architect(agent), r)
            },
            AgentKind::Backend(mut agent) => {
                let r = agent.on_event(project, event);
                (AgentKind::Backend(agent), r)
            },
        }
    }
}

/// The manager: owns the project and the ordered agent list.
pub struct ManagingAgent {
    pub attributes: AgentAttributes,
    /// The one shared project record, handed to one agent at a time.
    pub project: Project,
    /// The agents, in the order they run.
    pub agents: Vec<AgentKind>,
    /// Index of the agent currently executing; the sequence is over once
    /// it reaches the number of agents.
    pub next_agent: usize,
    /// Failures of completed agents, observed but not acted on.
    pub observed_failures: Vec<AgentFailure>,
}

/// The mathematical value of the manager.
#[verifier::ext_equal]
pub ghost struct ManagingModel {
    pub attributes: AgentAttributes,
    pub project: ProjectModel,
    pub agents: Seq<AgentKindModel>,
    pub next_agent: int,
    pub observed_failures: Seq<AgentFailure>,
}

impl View for ManagingAgent {
    type V = ManagingModel;

    open spec fn view(&self) -> ManagingModel {
        ManagingModel {
            attributes: self.attributes,
            project: self.project@,
            agents: Seq::new(self.agents@.len(), |i: int| self.agents@[i]@),
            next_agent: self.next_agent as int,
            observed_failures: self.observed_failures@,
        }
    }
}

impl ManagingModel {
    /// The sequence is still running: the index points at an agent that
    /// is sound and agrees with the project record.
    pub open spec fn running(self) -> bool {
        &&& 0 <= self.next_agent < self.agents.len()
        &&& self.agents[self.next_agent].wf()
        &&& self.agents[self.next_agent].compatible(self.project)
    }

    /// How the sequence reacts when the current agent answers `answer`
    /// from state `updated`: hand control to the next agent on
    /// completion, record and move past an observed failure, abandon the
    /// run when the safety gate was declined, and otherwise pass the
    /// agent's action through.
    pub open spec fn dispatch(self, answer: Result<AgentAction, AgentFailure>) -> (
        ManagingModel,
        Result<AgentAction, AgentFailure>,
    ) {
        match answer {
            Ok(action) => {
                if action == AgentAction::Complete {
                    self.advanced()
                } else {
                    (self, Ok(action))
                }
            },
            Err(failure) => {
                if failure == AgentFailure::SafetyDeclined {
                    (
                        ManagingModel { next_agent: self.agents.len() as int, ..self },
                        Err(AgentFailure::SafetyDeclined),
                    )
                } else {
                    let noted = ManagingModel {
                        observed_failures: self.observed_failures.push(failure),
                        ..self
                    };
                    noted.advanced()
                }
            },
        }
    }

    /// Hand control to the next agent, or finish the whole sequence.
    pub open spec fn advanced(self) -> (ManagingModel, Result<AgentAction, AgentFailure>) {
        if self.next_agent + 1 < self.agents.len() {
            (
                ManagingModel { next_agent: self.next_agent + 1, ..self },
                Ok(self.agents[self.next_agent + 1].spec_initial_action()),
            )
        } else {
            (
                ManagingModel {
                    attributes: AgentAttributes {
                        status: AgentStatus::Finished,
                        ..self.attributes
                    },
                    next_agent: self.next_agent + 1,
                    ..self
                },
                Ok(AgentAction::Complete),
            )
        }
    }

    /// The transition function of the sequencer: one transition of the
    /// current agent, then the hand-off policy of [`Self::dispatch`].
    pub open spec fn step(self, event: AgentEvent) -> Option<
        (ManagingModel, Result<AgentAction, AgentFailure>),
    > {
        if !self.running() {
            None
        } else {
            match self.agents[self.next_agent].step(self.project, event) {
                None => None,
                Some((a2, p2, answer)) => Some(
                    (ManagingModel {
                        project: p2,
                        agents: self.agents.update(self.next_agent, a2),
                        ..self
                    }).dispatch(answer),
                ),
            }
        }
    }
}

impl ManagingAgent {
    /// A fresh manager for a project with this description. Deriving the
    /// description from the user's request is the oracle's work and
    /// happens before the manager exists.
    pub fn new(description: String) -> (manager: Self)
        ensures
            manager.attributes.objective@
                == "Manage agents who are building an excellent website for the user"@,
            manager.attributes.position@ == "Project Manager"@,
            manager.attributes.status == AgentStatus::Discovery,
            manager.project@ == (ProjectModel {
                description: description,
                scope: None,
                external_urls: None,
                backend_code: None,
                api_endpoint_schema: None,
            }),
            manager.agents@.len() == 0,
            manager.next_agent == 0,
            manager.observed_failures@.len() == 0,
    {
        let attributes = AgentAttributes {
            objective: "Manage agents who are building an excellent website for the user".to_owned(),
            position: "Project Manager".to_owned(),
            status: AgentStatus::Discovery,
        };
        ManagingAgent {
            attributes,
            project: Project::new(description),
            agents: Vec::new(),
            next_agent: 0,
            observed_failures: Vec::new(),
        }
    }

    /// Append one agent to the run order.
    pub fn add_agent(&mut self, agent: AgentKind)
        ensures
            final(self)@ == (ManagingModel {
                agents: old(self)@.agents.push(agent@),
                ..old(self)@
            }),
    {
        self.agents.push(agent);
        proof {
            assert(self@.agents =~= old(self)@.agents.push(agent@));
            assert(self@ =~= (ManagingModel { agents: old(self)@.agents.push(agent@), ..old(self)@ }));
        }
    }

    /// Build the fixed run order: the solutions architect, then the
    /// backend developer.
    pub fn create_agents(&mut self)
        ensures
            final(self)@.agents.len() == old(self)@.agents.len() + 2,
            final(self)@.agents[old(self)@.agents.len() as int] is Architect,
            final(self)@.agents[old(self)@.agents.len() as int + 1] is Backend,
            forall|i: int|
                0 <= i < old(self)@.agents.len() ==> final(self)@.agents[i] == old(
                    self,
                )@.agents[i],
            forall|i: int|
                old(self)@.agents.len() <= i < final(self)@.agents.len()
                    ==> (#[trigger] final(self)@.agents[i]).wf(),
            final(self)@.attributes == old(self)@.attributes,
            final(self)@.project == old(self)@.project,
            final(self)@.next_agent == old(self)@.next_agent,
            final(self)@.observed_failures == old(self)@.observed_failures,
    {
        self.add_agent(AgentKind::Architect(SolutionArchitectAgent::new()));
        self.add_agent(AgentKind::Backend(BackendDeveloperAgent::new()));
    }

    /// The action that sets the sequence going: the first agent's
    /// opening request.
    pub fn start(&self) -> (r: AgentAction)
        requires
            self@.next_agent < self@.agents.len(),
        ensures
            r == self@.agents[self@.next_agent].spec_initial_action(),
    {
        self.agents[self.next_agent].initial_action()
    }

    /// Run one transition of the current agent and apply the hand-off
    /// policy, exactly as [`ManagingModel::step`] describes.
    pub fn on_event(&mut self, event: AgentEvent) -> (r: Result<AgentAction, AgentFailure>)
        requires
            old(self)@.running(),
            old(self)@.agents[old(self)@.next_agent].handles(event),
        ensures
            old(self)@.step(event) == Some((final(self)@, r)),
    {
        let ghost pre = self@;
        let agent = self.agents.remove(self.next_agent);
        let (agent, answer) = agent.on_event(&mut self.project, event);
        self.agents.insert(self.next_agent, agent);
        proof {
            assert(self@.agents =~= pre.agents.update(pre.next_agent, agent@));
        }
        match answer {
            Ok(action) => {
                if matches!(action, AgentAction::Complete) {
                    self.advanced()
                } else {
                    Ok(action)
                }
            },
            Err(failure) => {
                if matches!(failure, AgentFailure::SafetyDeclined) {
                    self.next_agent = self.agents.len();
                    Err(AgentFailure::SafetyDeclined)
                } else {
                    self.observed_failures.push(failure);
                    self.advanced()
                }
            },
        }
    }

    /// Hand control to the next agent, or finish the whole sequence.
    fn advanced(&mut self) -> (r: Result<AgentAction, AgentFailure>)
        requires
            0 <= old(self)@.next_agent < old(self)@.agents.len(),
        ensures
            (final(self)@, r) == old(self)@.advanced(),
    {
        let n = self.agents.len();
        proof {
            assert(old(self)@.agents.len() == self.agents@.len());
            assert(self.next_agent < n);
        }
        self.next_agent = self.next_agent + 1;
        if self.next_agent < n {
            Ok(self.agents[self.next_agent].initial_action())
        } else {
            self.attributes.status = AgentStatus::Finished;
            Ok(AgentAction::Complete)
        }
    }
}

} // verus!
