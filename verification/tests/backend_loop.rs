use autocoder::AgentAction;
use autocoder::AgentEvent;
use autocoder::AgentFailure;
use autocoder::AgentStatus;
use autocoder::BackendDeveloperAgent;
use autocoder::CodeGenTask;
use autocoder::EndpointRoute;
use autocoder::HTTPMethod;
use autocoder::Project;
use autocoder::filter_probe_routes;

fn fresh_project() -> Project {
    Project {
        description: "build a website which returns the current time".to_string(),
        scope: None,
        external_urls: None,
        backend_code: None,
        api_endpoint_schema: None,
    }
}

fn route(method: HTTPMethod, path: &str, dynamic: bool) -> EndpointRoute {
    EndpointRoute {
        is_route_dynamic: dynamic,
        method,
        request_body: serde_json::Value::Null,
        response: serde_json::Value::String("schema".to_string()),
        route: path.to_string(),
    }
}

/// Drive a fresh agent up to the point where a build outcome is awaited.
fn drive_to_build(agent: &mut BackendDeveloperAgent, project: &mut Project) {
    let improve = agent.on_event(project, AgentEvent::CodeReady("initial code".to_string()));
    assert!(matches!(improve, Ok(AgentAction::RequestCode(CodeGenTask::ImproveCode))));
    let safety = agent.on_event(project, AgentEvent::CodeReady("improved code".to_string()));
    assert!(matches!(safety, Ok(AgentAction::AskSafety)));
    let build = agent.on_event(project, AgentEvent::SafetyDecision(true));
    assert!(matches!(build, Ok(AgentAction::RunBuild)));
    assert_eq!(agent.attributes.status, AgentStatus::UnitTesting);
}

#[test]
fn scenario_one_build_failure_records_diagnostic() {
    let mut agent = BackendDeveloperAgent::new();
    let mut project = fresh_project();
    assert!(matches!(
        agent.initial_action(),
        AgentAction::RequestCode(CodeGenTask::InitialCode)
    ));
    drive_to_build(&mut agent, &mut project);
    let fix = agent.on_event(
        &mut project,
        AgentEvent::BuildFinished(false, "missing semicolon".to_string()),
    );
    assert!(matches!(fix, Ok(AgentAction::RequestCode(CodeGenTask::FixCode))));
    assert_eq!(agent.bug_count, 1);
    assert_eq!(agent.bug_errors.as_deref(), Some("missing semicolon"));
    assert_eq!(agent.attributes.status, AgentStatus::Working);
}

#[test]
fn scenario_two_filtered_probe_set() {
    let schema = vec![
        route(HTTPMethod::Get, "/task", false),
        route(HTTPMethod::Post, "/task", false),
    ];
    let filtered = filter_probe_routes(&schema);
    assert_eq!(filtered.len(), 1);
    assert_eq!(filtered[0].route, "/task");
    assert_eq!(filtered[0].method, HTTPMethod::Get);
    assert!(!filtered[0].is_route_dynamic);
    assert_eq!(filtered[0].request_body, serde_json::Value::Null);
    assert_eq!(
        filtered[0].response,
        serde_json::Value::String("schema".to_string())
    );
}

#[test]
fn scenario_two_probes_only_the_filtered_route() {
    let mut agent = BackendDeveloperAgent::new();
    let mut project = fresh_project();
    drive_to_build(&mut agent, &mut project);
    let extract = agent.on_event(
        &mut project,
        AgentEvent::BuildFinished(true, String::new()),
    );
    assert!(matches!(extract, Ok(AgentAction::RequestCode(CodeGenTask::ExtractEndpoints))));
    assert_eq!(agent.bug_count, 0);
    let schema = vec![
        route(HTTPMethod::Get, "/task", false),
        route(HTTPMethod::Post, "/task", false),
    ];
    let spawn = agent.on_event(&mut project, AgentEvent::EndpointsDecoded(schema));
    assert!(matches!(spawn, Ok(AgentAction::SpawnServer)));
    // The unfiltered schema is stored on the project.
    assert_eq!(project.api_endpoint_schema.as_ref().unwrap().len(), 2);
    let warm = agent.on_event(&mut project, AgentEvent::ServerSpawned(true));
    assert!(matches!(warm, Ok(AgentAction::WaitWarmUp)));
    // The warm-up comes strictly before the first and only probe.
    let probe = agent.on_event(&mut project, AgentEvent::WarmedUp);
    match probe {
        Ok(AgentAction::ProbeUrl(url)) => assert_eq!(url, "/task"),
        _ => panic!("expected the one filtered route to be probed"),
    }
    // After the only probe the server is terminated and the agent ends.
    let wind_down = agent.on_event(&mut project, AgentEvent::ProbeStatus(200));
    assert!(matches!(wind_down, Ok(AgentAction::TerminateServer)));
    let done = agent.on_event(&mut project, AgentEvent::ServerTerminated);
    assert!(matches!(done, Ok(AgentAction::Complete)));
    assert_eq!(agent.attributes.status, AgentStatus::Finished);
}

#[test]
fn scenario_three_unreachable_probe_kills_server_and_still_finishes() {
    let mut agent = BackendDeveloperAgent::new();
    let mut project = fresh_project();
    drive_to_build(&mut agent, &mut project);
    let _ = agent.on_event(&mut project, AgentEvent::BuildFinished(true, String::new()));
    let schema = vec![route(HTTPMethod::Get, "/task", false)];
    let _ = agent.on_event(&mut project, AgentEvent::EndpointsDecoded(schema));
    let _ = agent.on_event(&mut project, AgentEvent::ServerSpawned(true));
    let probe = agent.on_event(&mut project, AgentEvent::WarmedUp);
    assert!(matches!(probe, Ok(AgentAction::ProbeUrl(_))));
    // Connection refused: the server is terminated immediately...
    let kill = agent.on_event(&mut project, AgentEvent::ProbeUnreachable);
    assert!(matches!(kill, Ok(AgentAction::TerminateServer)));
    // ...and the loop still proceeds to wind-down: a second, idempotent
    // termination order, then the finished state.
    let final_kill = agent.on_event(&mut project, AgentEvent::ServerTerminated);
    assert!(matches!(final_kill, Ok(AgentAction::TerminateServer)));
    let done = agent.on_event(&mut project, AgentEvent::ServerTerminated);
    assert!(matches!(done, Ok(AgentAction::Complete)));
    assert_eq!(agent.attributes.status, AgentStatus::Finished);
}

#[test]
fn scenario_four_declined_safety_gate_aborts_before_any_build() {
    let mut agent = BackendDeveloperAgent::new();
    let mut project = fresh_project();
    let _ = agent.on_event(&mut project, AgentEvent::CodeReady("initial code".to_string()));
    let safety = agent.on_event(&mut project, AgentEvent::CodeReady("improved code".to_string()));
    assert!(matches!(safety, Ok(AgentAction::AskSafety)));
    // "no": fatal, and no RunBuild action was ever emitted.
    let aborted = agent.on_event(&mut project, AgentEvent::SafetyDecision(false));
    assert!(matches!(aborted, Err(AgentFailure::SafetyDeclined)));
}

#[test]
fn scenario_five_budget_exhausted_after_eleventh_failure() {
    let mut agent = BackendDeveloperAgent::new();
    let mut project = fresh_project();
    drive_to_build(&mut agent, &mut project);
    for attempt in 1u8..=10u8 {
        let fix = agent.on_event(
            &mut project,
            AgentEvent::BuildFinished(false, format!("failure {}", attempt)),
        );
        assert!(matches!(fix, Ok(AgentAction::RequestCode(CodeGenTask::FixCode))));
        assert_eq!(agent.bug_count, attempt);
        let safety = agent.on_event(
            &mut project,
            AgentEvent::CodeReady(format!("fix {}", attempt)),
        );
        assert!(matches!(safety, Ok(AgentAction::AskSafety)));
        let build = agent.on_event(&mut project, AgentEvent::SafetyDecision(true));
        assert!(matches!(build, Ok(AgentAction::RunBuild)));
    }
    // The eleventh consecutive failure exceeds the budget of ten
    // repairs: fatal, and the machine is finished with building.
    let aborted = agent.on_event(
        &mut project,
        AgentEvent::BuildFinished(false, "failure 11".to_string()),
    );
    assert!(matches!(aborted, Err(AgentFailure::BudgetExhausted)));
    assert_eq!(agent.bug_count, 11);
}

#[test]
fn build_success_resets_bug_count_after_failures() {
    let mut agent = BackendDeveloperAgent::new();
    let mut project = fresh_project();
    drive_to_build(&mut agent, &mut project);
    let _ = agent.on_event(
        &mut project,
        AgentEvent::BuildFinished(false, "failure".to_string()),
    );
    let _ = agent.on_event(&mut project, AgentEvent::CodeReady("fix".to_string()));
    let _ = agent.on_event(&mut project, AgentEvent::SafetyDecision(true));
    assert_eq!(agent.bug_count, 1);
    let extract = agent.on_event(&mut project, AgentEvent::BuildFinished(true, String::new()));
    assert!(matches!(extract, Ok(AgentAction::RequestCode(CodeGenTask::ExtractEndpoints))));
    assert_eq!(agent.bug_count, 0);
}

#[test]
fn empty_probe_set_skips_probing_entirely() {
    let mut agent = BackendDeveloperAgent::new();
    let mut project = fresh_project();
    drive_to_build(&mut agent, &mut project);
    let _ = agent.on_event(&mut project, AgentEvent::BuildFinished(true, String::new()));
    let schema = vec![
        route(HTTPMethod::Get, "/task/{id}", true),
        route(HTTPMethod::Delete, "/task/{id}", true),
    ];
    let _ = agent.on_event(&mut project, AgentEvent::EndpointsDecoded(schema));
    let _ = agent.on_event(&mut project, AgentEvent::ServerSpawned(true));
    // No eligible route: the warm-up is followed by the wind-down, not
    // by a probe.
    let wind_down = agent.on_event(&mut project, AgentEvent::WarmedUp);
    assert!(matches!(wind_down, Ok(AgentAction::TerminateServer)));
    let done = agent.on_event(&mut project, AgentEvent::ServerTerminated);
    assert!(matches!(done, Ok(AgentAction::Complete)));
}

#[test]
fn filter_keeps_order_and_drops_dynamic_gets() {
    let schema = vec![
        route(HTTPMethod::Get, "/task", false),
        route(HTTPMethod::Get, "/task/{id}", true),
        route(HTTPMethod::Put, "/task", false),
        route(HTTPMethod::Get, "/health", false),
    ];
    let filtered = filter_probe_routes(&schema);
    assert_eq!(filtered.len(), 2);
    assert_eq!(filtered[0].route, "/task");
    assert_eq!(filtered[1].route, "/health");
}

#[test]
fn oracle_failures_are_fatal_to_the_agent() {
    let mut agent = BackendDeveloperAgent::new();
    let mut project = fresh_project();
    let aborted = agent.on_event(&mut project, AgentEvent::OracleUnavailable);
    assert!(matches!(aborted, Err(AgentFailure::TransportError)));

    let mut agent = BackendDeveloperAgent::new();
    let mut project = fresh_project();
    drive_to_build(&mut agent, &mut project);
    let _ = agent.on_event(&mut project, AgentEvent::BuildFinished(true, String::new()));
    let aborted = agent.on_event(&mut project, AgentEvent::ResponseUndecodable);
    assert!(matches!(aborted, Err(AgentFailure::DecodeError)));

    let mut agent = BackendDeveloperAgent::new();
    let mut project = fresh_project();
    drive_to_build(&mut agent, &mut project);
    let _ = agent.on_event(&mut project, AgentEvent::BuildFinished(true, String::new()));
    let schema = vec![route(HTTPMethod::Get, "/task", false)];
    let _ = agent.on_event(&mut project, AgentEvent::EndpointsDecoded(schema));
    let aborted = agent.on_event(&mut project, AgentEvent::ServerSpawned(false));
    assert!(matches!(aborted, Err(AgentFailure::ProcessError)));
}

#[test]
fn failure_descriptions_name_the_condition() {
    assert_eq!(
        AgentFailure::BudgetExhausted.describe(),
        "too many consecutive failed builds"
    );
    assert_eq!(
        AgentFailure::SafetyDeclined.describe(),
        "the safety gate declined to run generated code"
    );
    assert_eq!(
        AgentFailure::TransportError.describe(),
        "the oracle or a probe target could not be reached"
    );
    assert_eq!(
        AgentFailure::DecodeError.describe(),
        "the oracle's structured response could not be decoded"
    );
    assert_eq!(
        AgentFailure::ProcessError.describe(),
        "a subprocess could not be spawned or managed"
    );
}
