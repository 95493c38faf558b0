use autocoder::AgentAction;
use autocoder::AgentEvent;
use autocoder::AgentStatus;
use autocoder::Project;
use autocoder::ProjectScope;
use autocoder::SolutionArchitectAgent;

fn fresh_project() -> Project {
    Project {
        description: "a site showing forex prices".to_string(),
        scope: None,
        external_urls: None,
        backend_code: None,
        api_endpoint_schema: None,
    }
}

fn scope(external: bool) -> ProjectScope {
    ProjectScope {
        is_crud_required: true,
        is_user_login_and_logout_required: false,
        is_external_urls_required: external,
    }
}

#[test]
fn scope_without_external_urls_finishes_at_once() {
    let mut agent = SolutionArchitectAgent::new();
    let mut project = fresh_project();
    assert!(matches!(agent.initial_action(), AgentAction::RequestScope));
    let done = agent.on_event(&mut project, AgentEvent::ScopeReady(scope(false)));
    assert!(matches!(done, Ok(AgentAction::Complete)));
    assert_eq!(project.scope, Some(scope(false)));
    assert_eq!(agent.attributes.status, AgentStatus::Finished);
    assert!(project.external_urls.is_none());
}

#[test]
fn urls_are_probed_and_survivors_stored() {
    let mut agent = SolutionArchitectAgent::new();
    let mut project = fresh_project();
    let urls_request = agent.on_event(&mut project, AgentEvent::ScopeReady(scope(true)));
    assert!(matches!(urls_request, Ok(AgentAction::RequestUrls)));
    let urls = vec![
        "https://example.com/rates".to_string(),
        "https://example.org/feed".to_string(),
        "https://example.net/api".to_string(),
    ];
    let first_probe = agent.on_event(&mut project, AgentEvent::UrlsReady(urls));
    match first_probe {
        Ok(AgentAction::ProbeUrl(url)) => assert_eq!(url, "https://example.com/rates"),
        _ => panic!("expected the first URL to be probed"),
    }
    // Alive: kept.
    let second_probe = agent.on_event(&mut project, AgentEvent::ProbeStatus(200));
    match second_probe {
        Ok(AgentAction::ProbeUrl(url)) => assert_eq!(url, "https://example.org/feed"),
        _ => panic!("expected the second URL to be probed"),
    }
    // Non-200: excluded.
    let third_probe = agent.on_event(&mut project, AgentEvent::ProbeStatus(503));
    assert!(matches!(third_probe, Ok(AgentAction::ProbeUrl(_))));
    // Transport failure (a timeout counts): excluded as well.
    let done = agent.on_event(&mut project, AgentEvent::ProbeUnreachable);
    assert!(matches!(done, Ok(AgentAction::Complete)));
    assert_eq!(
        project.external_urls,
        Some(vec!["https://example.com/rates".to_string()])
    );
    assert_eq!(agent.attributes.status, AgentStatus::Finished);
}

#[test]
fn empty_url_list_finishes_without_probing() {
    let mut agent = SolutionArchitectAgent::new();
    let mut project = fresh_project();
    let _ = agent.on_event(&mut project, AgentEvent::ScopeReady(scope(true)));
    let done = agent.on_event(&mut project, AgentEvent::UrlsReady(Vec::new()));
    assert!(matches!(done, Ok(AgentAction::Complete)));
    assert_eq!(project.external_urls, Some(Vec::new()));
    assert_eq!(agent.attributes.status, AgentStatus::Finished);
}
