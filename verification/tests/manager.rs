use autocoder::AgentAction;
use autocoder::AgentEvent;
use autocoder::AgentFailure;
use autocoder::AgentStatus;
use autocoder::CodeGenTask;
use autocoder::EndpointRoute;
use autocoder::HTTPMethod;
use autocoder::ManagingAgent;
use autocoder::Model;
use autocoder::ProjectScope;

fn no_urls_scope() -> ProjectScope {
    ProjectScope {
        is_crud_required: true,
        is_user_login_and_logout_required: true,
        is_external_urls_required: false,
    }
}

#[test]
fn manager_runs_both_agents_to_completion() {
    let mut manager = ManagingAgent::new("build a task tracking site".to_string());
    manager.create_agents();
    assert_eq!(manager.project.description, "build a task tracking site");
    assert!(matches!(manager.start(), AgentAction::RequestScope));
    // The architect finishes, and the manager hands out the backend
    // developer's opening request.
    let hand_off = manager.on_event(AgentEvent::ScopeReady(no_urls_scope()));
    assert!(matches!(hand_off, Ok(AgentAction::RequestCode(CodeGenTask::InitialCode))));
    // The backend developer runs to completion.
    let improve = manager.on_event(AgentEvent::CodeReady("initial code".to_string()));
    assert!(matches!(improve, Ok(AgentAction::RequestCode(CodeGenTask::ImproveCode))));
    let safety = manager.on_event(AgentEvent::CodeReady("improved code".to_string()));
    assert!(matches!(safety, Ok(AgentAction::AskSafety)));
    let build = manager.on_event(AgentEvent::SafetyDecision(true));
    assert!(matches!(build, Ok(AgentAction::RunBuild)));
    let extract = manager.on_event(AgentEvent::BuildFinished(true, String::new()));
    assert!(matches!(extract, Ok(AgentAction::RequestCode(CodeGenTask::ExtractEndpoints))));
    let schema = vec![EndpointRoute {
        is_route_dynamic: false,
        method: HTTPMethod::Get,
        request_body: serde_json::Value::Null,
        response: serde_json::Value::Null,
        route: "/task".to_string(),
    }];
    let spawn = manager.on_event(AgentEvent::EndpointsDecoded(schema));
    assert!(matches!(spawn, Ok(AgentAction::SpawnServer)));
    let warm = manager.on_event(AgentEvent::ServerSpawned(true));
    assert!(matches!(warm, Ok(AgentAction::WaitWarmUp)));
    let probe = manager.on_event(AgentEvent::WarmedUp);
    assert!(matches!(probe, Ok(AgentAction::ProbeUrl(_))));
    let wind_down = manager.on_event(AgentEvent::ProbeStatus(200));
    assert!(matches!(wind_down, Ok(AgentAction::TerminateServer)));
    let done = manager.on_event(AgentEvent::ServerTerminated);
    assert!(matches!(done, Ok(AgentAction::Complete)));
    assert_eq!(manager.attributes.status, AgentStatus::Finished);
    assert!(manager.observed_failures.is_empty());
    assert_eq!(manager.project.backend_code.as_deref(), Some("improved code"));
    assert_eq!(manager.project.api_endpoint_schema.as_ref().unwrap().len(), 1);
}

#[test]
fn manager_observes_an_agent_failure_and_continues() {
    let mut manager = ManagingAgent::new("a news site".to_string());
    manager.create_agents();
    assert!(matches!(manager.start(), AgentAction::RequestScope));
    // The architect dies on an undecodable oracle answer; the sequence
    // still moves on to the backend developer, with the failure
    // recorded.
    let hand_off = manager.on_event(AgentEvent::ResponseUndecodable);
    assert!(matches!(hand_off, Ok(AgentAction::RequestCode(CodeGenTask::InitialCode))));
    assert_eq!(manager.observed_failures, vec![AgentFailure::DecodeError]);
    assert_eq!(manager.attributes.status, AgentStatus::Discovery);
}

#[test]
fn manager_aborts_the_whole_run_when_safety_is_declined() {
    let mut manager = ManagingAgent::new("a shop".to_string());
    manager.create_agents();
    assert!(matches!(manager.start(), AgentAction::RequestScope));
    let hand_off = manager.on_event(AgentEvent::ScopeReady(no_urls_scope()));
    assert!(matches!(hand_off, Ok(AgentAction::RequestCode(CodeGenTask::InitialCode))));
    let _ = manager.on_event(AgentEvent::CodeReady("initial code".to_string()));
    let safety = manager.on_event(AgentEvent::CodeReady("improved code".to_string()));
    assert!(matches!(safety, Ok(AgentAction::AskSafety)));
    let aborted = manager.on_event(AgentEvent::SafetyDecision(false));
    assert!(matches!(aborted, Err(AgentFailure::SafetyDeclined)));
}

#[test]
fn model_wire_names() {
    assert_eq!(Model::GPT_5_2.api_name(), "gpt-5.2");
    assert_eq!(Model::GPT_5_2_Pro.api_name(), "gpt-5.2-pro");
    assert_eq!(Model::GPT_5.api_name(), "gpt-5");
    assert_eq!(Model::GPT_5_Mini.api_name(), "gpt-5-mini");
    assert_eq!(Model::GPT_5_Nano.api_name(), "gpt-5-nano");
}
