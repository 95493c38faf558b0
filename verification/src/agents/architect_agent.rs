//! The solutions architect agent: derives the structured project scope
//! and, when the scope calls for it, a liveness-filtered list of
//! external site URLs.
//!
//! The same probing pattern as the backend agent's endpoint checks, at
//! lighter weight: one pass over the supplied URLs, no build loop and no
//! retry budget. A URL survives only if its probe answers with HTTP
//! status 200; a non-200 status or a transport failure (including a
//! timeout) excludes it.

use vstd::prelude::*;

use crate::attributes::AgentAttributes;
use crate::attributes::AgentStatus;
use crate::errors::AgentFailure;
use crate::agents::protocol::AgentAction;
use crate::agents::protocol::AgentEvent;
use crate::model::project::Project;
use crate::model::project::ProjectModel;

verus! {

/// What the architect is waiting for.
#[derive(Debug, Clone, Copy, PartialEq, Eq, Structural)]
pub enum ArchitectPhase {
    /// Awaiting the decoded project scope (status `Discovery`).
    AwaitingScope,
    /// Awaiting the decoded external URL list (status `Discovery`).
    AwaitingUrls,
    /// Awaiting the probe outcome of the current URL.
    TestingUrls,
    /// Terminal: finished, or aborted on a fatal failure.
    Done,
}

/// The solutions architect. Drive it by performing each returned action
/// and feeding the outcome to [`Self::on_event`].
pub struct SolutionArchitectAgent {
    pub attributes: AgentAttributes,
    /// What the agent is waiting for.
    pub phase: ArchitectPhase,
    /// Index into the project's URL list of the URL being probed (or,
    /// outside `TestingUrls`, the next one to probe).
    pub next_url: usize,
    /// The URLs that have answered with status 200 so far.
    pub live_urls: Vec<String>,
}

/// The mathematical value of the architect.
#[verifier::ext_equal]
pub ghost struct ArchitectModel {
    pub attributes: AgentAttributes,
    pub phase: ArchitectPhase,
    pub next_url: int,
    pub live_urls: Seq<String>,
}

impl View for SolutionArchitectAgent {
    type V = ArchitectModel;

    open spec fn view(&self) -> ArchitectModel {
        ArchitectModel {
            attributes: self.attributes,
            phase: self.phase,
            next_url: self.next_url as int,
            live_urls: self.live_urls@,
        }
    }
}

impl ArchitectModel {
    /// The coarse status agrees with the phase.
    pub open spec fn wf(self) -> bool {
        &&& 0 <= self.next_url
        &&& match self.phase {
            ArchitectPhase::AwaitingScope | ArchitectPhase::AwaitingUrls => self.attributes.status
                == AgentStatus::Discovery,
            ArchitectPhase::TestingUrls => self.attributes.status == AgentStatus::UnitTesting,
            ArchitectPhase::Done => true,
        }
    }

    /// While URLs are being tested, the project must still hold the list
    /// under test and the probe index must point into it.
    pub open spec fn compatible(self, p: ProjectModel) -> bool {
        self.phase is TestingUrls ==> {
            &&& p.external_urls is Some
            &&& self.next_url < p.external_urls->Some_0.len()
        }
    }

    /// Which events the machine is prepared to consume in this state.
    pub open spec fn handles(self, event: AgentEvent) -> bool {
        match self.phase {
            ArchitectPhase::AwaitingScope => {
                event is ScopeReady || event is ResponseUndecodable || event is OracleUnavailable
            },
            ArchitectPhase::AwaitingUrls => {
                event is UrlsReady || event is ResponseUndecodable || event is OracleUnavailable
            },
            ArchitectPhase::TestingUrls => event is ProbeStatus || event is ProbeUnreachable,
            ArchitectPhase::Done => false,
        }
    }

    /// The transition function of the architect. `None` exactly when the
    /// event is not one this state can consume.
    pub open spec fn step(self, p: ProjectModel, event: AgentEvent) -> Option<
        (ArchitectModel, ProjectModel, Result<AgentAction, AgentFailure>),
    > {
        match self.phase {
            ArchitectPhase::AwaitingScope => match event {
                AgentEvent::ScopeReady(scope) => {
                    if scope.is_external_urls_required {
                        Some(
                            (
                                ArchitectModel { phase: ArchitectPhase::AwaitingUrls, ..self },
                                ProjectModel { scope: Some(scope), ..p },
                                Ok(AgentAction::RequestUrls),
                            ),
                        )
                    } else {
                        Some(
                            (
                                ArchitectModel {
                                    attributes: AgentAttributes {
                                        status: AgentStatus::Finished,
                                        ..self.attributes
                                    },
                                    phase: ArchitectPhase::Done,
                                    ..self
                                },
                                ProjectModel { scope: Some(scope), ..p },
                                Ok(AgentAction::Complete),
                            ),
                        )
                    }
                },
                AgentEvent::ResponseUndecodable => Some(
                    (
                        ArchitectModel { phase: ArchitectPhase::Done, ..self },
                        p,
                        Err(AgentFailure::DecodeError),
                    ),
                ),
                AgentEvent::OracleUnavailable => Some(
                    (
                        ArchitectModel { phase: ArchitectPhase::Done, ..self },
                        p,
                        Err(AgentFailure::TransportError),
                    ),
                ),
                _ => None,
            },
            ArchitectPhase::AwaitingUrls => match event {
                AgentEvent::UrlsReady(urls) => {
                    if urls@.len() == 0 {
                        Some(
                            (
                                ArchitectModel {
                                    attributes: AgentAttributes {
                                        status: AgentStatus::Finished,
                                        ..self.attributes
                                    },
                                    phase: ArchitectPhase::Done,
                                    ..self
                                },
                                ProjectModel { external_urls: Some(urls@), ..p },
                                Ok(AgentAction::Complete),
                            ),
                        )
                    } else {
                        Some(
                            (
                                ArchitectModel {
                                    attributes: AgentAttributes {
                                        status: AgentStatus::UnitTesting,
                                        ..self.attributes
                                    },
                                    phase: ArchitectPhase::TestingUrls,
                                    next_url: 0,
                                    live_urls: Seq::empty(),
                                },
                                ProjectModel { external_urls: Some(urls@), ..p },
                                Ok(AgentAction::ProbeUrl(urls@[0])),
                            ),
                        )
                    }
                },
                AgentEvent::ResponseUndecodable => Some(
                    (
                        ArchitectModel { phase: ArchitectPhase::Done, ..self },
                        p,
                        Err(AgentFailure::DecodeError),
                    ),
                ),
                AgentEvent::OracleUnavailable => Some(
                    (
                        ArchitectModel { phase: ArchitectPhase::Done, ..self },
                        p,
                        Err(AgentFailure::TransportError),
                    ),
                ),
                _ => None,
            },
            ArchitectPhase::TestingUrls => match event {
                AgentEvent::ProbeStatus(status) => Some(
                    self.url_tested(p, status == 200),
                ),
                AgentEvent::ProbeUnreachable => Some(self.url_tested(p, false)),
                _ => None,
            },
            ArchitectPhase::Done => None,
        }
    }

    /// The current URL has been judged: keep it exactly when `live`,
    /// then move to the next URL, or store the surviving subset and
    /// finish once every URL has been judged.
    pub open spec fn url_tested(self, p: ProjectModel, live: bool) -> (
        ArchitectModel,
        ProjectModel,
        Result<AgentAction, AgentFailure>,
    ) {
        let urls = p.external_urls->Some_0;
        let kept = if live {
            self.live_urls.push(urls[self.next_url])
        } else {
            self.live_urls
        };
        if self.next_url + 1 < urls.len() {
            (
                ArchitectModel { next_url: self.next_url + 1, live_urls: kept, ..self },
                p,
                Ok(AgentAction::ProbeUrl(urls[self.next_url + 1])),
            )
        } else {
            (
                ArchitectModel {
                    attributes: AgentAttributes {
                        status: AgentStatus::Finished,
                        ..self.attributes
                    },
                    phase: ArchitectPhase::Done,
                    next_url: self.next_url + 1,
                    live_urls: Seq::empty(),
                },
                ProjectModel { external_urls: Some(kept), ..p },
                Ok(AgentAction::Complete),
            )
        }
    }
}

/// The architect has a transition for an event exactly when the event
/// is one of the possible outcomes of the action it last emitted.
pub proof fn lemma_architect_handles_iff_step_defined(
    m: ArchitectModel,
    p: ProjectModel,
    event: AgentEvent,
)
    ensures
        m.step(p, event) is Some <==> m.handles(event),
{
}

/// The final state and emitted answers of a run of the architect over a
/// sequence of events; `None` if some event is not one its state then
/// handles.
pub open spec fn architect_run(
    m: ArchitectModel,
    p: ProjectModel,
    events: Seq<AgentEvent>,
) -> Option<(ArchitectModel, ProjectModel, Seq<Result<AgentAction, AgentFailure>>)>
    decreases events.len(),
{
    if events.len() == 0 {
        Some((m, p, Seq::empty()))
    } else {
        match m.step(p, events[0]) {
            None => None,
            Some((m1, p1, r)) => match architect_run(m1, p1, events.drop_first()) {
                None => None,
                Some((mf, pf, rs)) => Some((mf, pf, seq![r] + rs)),
            },
        }
    }
}

/// Whether a probe outcome keeps the probed URL: only an HTTP 200
/// answer does. A non-200 status and a transport failure (a timeout
/// included) both exclude it.
pub open spec fn outcome_keeps(event: AgentEvent) -> bool {
    event == AgentEvent::ProbeStatus(200)
}

/// The URLs from index `i` on that survive, judged in order by the
/// given outcomes.
pub open spec fn surviving_urls(urls: Seq<String>, i: int, outcomes: Seq<AgentEvent>) -> Seq<
    String,
>
    decreases outcomes.len(),
{
    if outcomes.len() == 0 {
        Seq::empty()
    } else {
        let rest = surviving_urls(urls, i + 1, outcomes.drop_first());
        if outcome_keeps(outcomes[0]) {
            seq![urls[i]] + rest
        } else {
            rest
        }
    }
}

/// URL probing stores exactly the surviving subset: feeding one probe
/// outcome per remaining URL, the architect finishes, and the project
/// then holds the URLs already kept followed by exactly those remaining
/// URLs whose outcome was an HTTP 200 answer, in their original order.
pub proof fn lemma_url_probing_stores_survivors(
    m: ArchitectModel,
    p: ProjectModel,
    events: Seq<AgentEvent>,
)
    requires
        m.wf(),
        m.phase is TestingUrls,
        m.compatible(p),
        events.len() == p.external_urls->Some_0.len() - m.next_url,
        forall|k: int|
            0 <= k < events.len() ==> ((#[trigger] events[k]) is ProbeStatus
                || events[k] is ProbeUnreachable),
    ensures
        architect_run(m, p, events) is Some,
        architect_run(m, p, events)->Some_0.0.phase is Done,
        architect_run(m, p, events)->Some_0.0.attributes.status == AgentStatus::Finished,
        architect_run(m, p, events)->Some_0.1.external_urls == Some(
            m.live_urls + surviving_urls(p.external_urls->Some_0, m.next_url, events),
        ),
    decreases events.len(),
{
    let urls = p.external_urls->Some_0;
    let keeps = outcome_keeps(events[0]);
    let kept = if keeps {
        m.live_urls.push(urls[m.next_url])
    } else {
        m.live_urls
    };
    let (m1, p1, r) = m.step(p, events[0])->Some_0;
    assert(match events[0] {
        AgentEvent::ProbeStatus(status) => m.step(p, events[0]) == Some(
            m.url_tested(p, status == 200),
        ),
        AgentEvent::ProbeUnreachable => m.step(p, events[0]) == Some(m.url_tested(p, false)),
        _ => true,
    });
    if m.next_url + 1 < urls.len() {
        assert(m1.live_urls == kept);
        assert(m1.next_url == m.next_url + 1);
        assert(p1 == p);
        lemma_url_probing_stores_survivors(m1, p1, events.drop_first());
        let rest = surviving_urls(urls, m.next_url + 1, events.drop_first());
        if keeps {
            assert(m.live_urls.push(urls[m.next_url]) + rest =~= m.live_urls + (seq![
                urls[m.next_url],
            ] + rest));
        }
    } else {
        assert(events.len() == 1);
        assert(events.drop_first().len() == 0);
        assert(p1.external_urls == Some(kept));
        let rest = surviving_urls(urls, m.next_url + 1, events.drop_first());
        assert(rest =~= Seq::<String>::empty());
        if keeps {
            assert(kept =~= m.live_urls + (seq![urls[m.next_url]] + rest));
        } else {
            assert(kept =~= m.live_urls + rest);
        }
    }
}

impl SolutionArchitectAgent {
    /// A fresh solutions architect, ready to request the project scope.
    pub fn new() -> (agent: Self)
        ensures
            agent.attributes.objective@
                == "Gathers information and design solutions for website development"@,
            agent.attributes.position@ == "Solutions Architect"@,
            agent.attributes.status == AgentStatus::Discovery,
            agent.phase == ArchitectPhase::AwaitingScope,
            agent.next_url == 0,
            agent.live_urls@.len() == 0,
            agent@.wf(),
    {
        let attributes = AgentAttributes {
            objective: "Gathers information and design solutions for website development".to_owned(),
            position: "Solutions Architect".to_owned(),
            status: AgentStatus::Discovery,
        };
        SolutionArchitectAgent {
            attributes,
            phase: ArchitectPhase::AwaitingScope,
            next_url: 0,
            live_urls: Vec::new(),
        }
    }

    /// The action that sets this agent going.
    pub fn initial_action(&self) -> (r: AgentAction)
        ensures
            r == AgentAction::RequestScope,
    {
        AgentAction::RequestScope
    }

    /// Consume the outcome of the last action and answer with the next
    /// action, exactly as [`ArchitectModel::step`] describes.
    pub fn on_event(&mut self, project: &mut Project, event: AgentEvent) -> (r: Result<
        AgentAction,
        AgentFailure,
    >)
        requires
            old(self)@.wf(),
            old(self)@.compatible(old(project)@),
            old(self)@.handles(event),
        ensures
            old(self)@.step(old(project)@, event) == Some(
                (final(self)@, final(project)@, r),
            ),
            final(self)@.wf(),
            final(self)@.compatible(final(project)@),
    {
        match self.phase {
            ArchitectPhase::AwaitingScope => match event {
                AgentEvent::ScopeReady(scope) => {
                    project.scope = Some(scope);
                    if scope.is_external_urls_required {
                        self.phase = ArchitectPhase::AwaitingUrls;
                        Ok(AgentAction::RequestUrls)
                    } else {
                        self.attributes.status = AgentStatus::Finished;
                        self.phase = ArchitectPhase::Done;
                        Ok(AgentAction::Complete)
                    }
                },
                AgentEvent::ResponseUndecodable => {
                    self.phase = ArchitectPhase::Done;
                    Err(AgentFailure::DecodeError)
                },
                AgentEvent::OracleUnavailable => {
                    self.phase = ArchitectPhase::Done;
                    Err(AgentFailure::TransportError)
                },
                _ => vstd::pervasive::unreached(),
            },
            ArchitectPhase::AwaitingUrls => match event {
                AgentEvent::UrlsReady(urls) => {
                    if urls.len() == 0 {
                        project.external_urls = Some(urls);
                        self.attributes.status = AgentStatus::Finished;
                        self.phase = ArchitectPhase::Done;
                        Ok(AgentAction::Complete)
                    } else {
                        let first = urls[0].clone();
                        project.external_urls = Some(urls);
                        self.attributes.status = AgentStatus::UnitTesting;
                        self.phase = ArchitectPhase::TestingUrls;
                        self.next_url = 0;
                        self.live_urls = Vec::new();
                        Ok(AgentAction::ProbeUrl(first))
                    }
                },
                AgentEvent::ResponseUndecodable => {
                    self.phase = ArchitectPhase::Done;
                    Err(AgentFailure::DecodeError)
                },
                AgentEvent::OracleUnavailable => {
                    self.phase = ArchitectPhase::Done;
                    Err(AgentFailure::TransportError)
                },
                _ => vstd::pervasive::unreached(),
            },
            ArchitectPhase::TestingUrls => match event {
                AgentEvent::ProbeStatus(status) => self.url_tested(project, status == 200),
                AgentEvent::ProbeUnreachable => self.url_tested(project, false),
                _ => vstd::pervasive::unreached(),
            },
            ArchitectPhase::Done => vstd::pervasive::unreached(),
        }
    }

    /// The current URL has been judged; see [`ArchitectModel::url_tested`].
    fn url_tested(&mut self, project: &mut Project, live: bool) -> (r: Result<
        AgentAction,
        AgentFailure,
    >)
        requires
            old(self)@.wf(),
            old(self)@.phase is TestingUrls,
            old(self)@.compatible(old(project)@),
        ensures
            old(self)@.url_tested(old(project)@, live) == (final(self)@, final(project)@, r),
            final(self)@.wf(),
            final(self)@.compatible(final(project)@),
    {
        let n = match &project.external_urls {
            Some(urls) => urls.len(),
            None => vstd::pervasive::unreached(),
        };
        if live {
            let url = match &project.external_urls {
                Some(urls) => urls[self.next_url].clone(),
                None => vstd::pervasive::unreached(),
            };
            self.live_urls.push(url);
        }
        proof {
            assert(old(self)@.phase is TestingUrls);
            assert(self.next_url < n);
        }
        self.next_url = self.next_url + 1;
        let urls = match &project.external_urls {
            Some(urls) => urls,
            None => vstd::pervasive::unreached(),
        };
        if self.next_url < urls.len() {
            Ok(AgentAction::ProbeUrl(urls[self.next_url].clone()))
        } else {
            let mut survivors: Vec<String> = Vec::new();
            core::mem::swap(&mut survivors, &mut self.live_urls);
            project.external_urls = Some(survivors);
            self.attributes.status = AgentStatus::Finished;
            self.phase = ArchitectPhase::Done;
            Ok(AgentAction::Complete)
        }
    }
}

} // verus!
