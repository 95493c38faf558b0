//! An autonomous build–validate–repair pipeline for generated backend
//! services, modelled as verified state machines.
//!
//! The library owns the decision logic: the sequencing of agents, the
//! build–validate–repair loop with its retry budget, endpoint-schema
//! filtering, probe classification, prompt construction and the safety
//! gate. Everything that touches the outside world (the code-generation
//! oracle's transport, subprocesses, HTTP probes, the terminal) is driven
//! by an unverified harness that performs the actions the machines emit
//! and feeds the outcomes back as events.

mod agents;
mod api;
mod attributes;
mod errors;
mod model;
mod utilities;

pub use agents::ai_functions::convert_user_input_to_goal;
pub use agents::ai_functions::print_backend_webserver_code;
pub use agents::ai_functions::print_fixed_code;
pub use agents::ai_functions::print_improved_webserver_code;
pub use agents::ai_functions::print_project_scope;
pub use agents::ai_functions::print_rest_api_endpoints;
pub use agents::ai_functions::print_site_urls;
pub use api::open_ai::APIChoice;
pub use api::open_ai::APIMessage;
pub use api::open_ai::APIResponse;
pub use api::open_ai::Message;
pub use api::open_ai::Model;
pub use api::open_ai::Role;
pub use utilities::ai_tasks::build_function_printer_message;
pub use utilities::ai_tasks::extend_ai_function;
pub use utilities::ai_tasks::extended_content;
pub use utilities::backend_code_persistence::BackendCodePersistence;
pub use utilities::command_line::AgentStatement;
pub use utilities::command_line::CommandLine;
pub use utilities::command_line::CommandLineStatementKind;
pub use utilities::command_line::StatementColor;
pub use utilities::networking::local_endpoint_url;

pub use agents::architect_agent::ArchitectModel;
pub use agents::architect_agent::ArchitectPhase;
pub use agents::architect_agent::SolutionArchitectAgent;
pub use agents::architect_agent::architect_run;
pub use agents::architect_agent::lemma_architect_handles_iff_step_defined;
pub use agents::architect_agent::lemma_url_probing_stores_survivors;
pub use agents::architect_agent::outcome_keeps;
pub use agents::architect_agent::surviving_urls;
pub use agents::backend_agent::BackendDeveloperAgent;
pub use agents::backend_agent::BackendModel;
pub use agents::backend_agent::after_repair_cycles;
pub use agents::backend_agent::is_probe;
pub use agents::backend_agent::is_warmup;
pub use agents::backend_agent::lemma_no_warmup_after_warmup;
pub use agents::backend_agent::lemma_warmup_exactly_once_before_probes;
pub use agents::backend_agent::warmup_count;
pub use agents::backend_agent::lemma_backend_handles_iff_step_defined;
pub use agents::backend_agent::lemma_budget_exhausted;
pub use agents::backend_agent::lemma_build_failure_within_budget;
pub use agents::backend_agent::lemma_build_success_resets_bug_count;
pub use agents::backend_agent::lemma_consecutive_failures_counted;
pub use agents::backend_agent::lemma_done_is_terminal;
pub use agents::backend_agent::lemma_eleventh_failure_aborts;
pub use agents::backend_agent::lemma_live_server_step;
pub use agents::backend_agent::lemma_probe_only_after_warmup;
pub use agents::backend_agent::lemma_step_preserves_wf;
pub use agents::backend_agent::lemma_terminate_on_every_exit;
pub use agents::backend_agent::lemma_warmup_once_before_first_probe;
pub use agents::backend_agent::lemma_warmup_only_on_launch;
pub use agents::backend_agent::run_steps;
pub use agents::backend_agent::server_live;
pub use agents::managing_agent::AgentKind;
pub use agents::managing_agent::AgentKindModel;
pub use agents::managing_agent::ManagingAgent;
pub use agents::managing_agent::ManagingModel;
pub use agents::backend_agent::BackendPhase;
pub use agents::backend_agent::REPAIR_BUDGET;
pub use agents::protocol::AgentAction;
pub use agents::protocol::AgentEvent;
pub use agents::protocol::CodeGenTask;
pub use agents::protocol::PROBE_TIMEOUT_SECONDS;
pub use agents::protocol::WARM_UP_SECONDS;

pub use attributes::AgentAttributes;
pub use attributes::AgentStatus;
pub use errors::AgentFailure;
pub use model::endpoint_route::EndpointRoute;
pub use model::endpoint_route::HTTPMethod;
pub use model::endpoint_route::eligible_routes;
pub use model::endpoint_route::filter_probe_routes;
pub use model::endpoint_route::is_probe_eligible;
pub use model::endpoint_route::lemma_probe_set_exact;
pub use model::endpoint_route::probe_eligible;
pub use model::project::Project;
pub use model::project::ProjectModel;
pub use model::project_scope::ProjectScope;
