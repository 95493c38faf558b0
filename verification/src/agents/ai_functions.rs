//! The pseudo-function texts shown to the oracle. Each returns the text
//! of a function the oracle is told to act as (see
//! `utilities::ai_tasks::extend_ai_function`); the input itself is not
//! consumed here, it is appended by the prompt builder.

use vstd::prelude::*;

verus! {

/// Prompt text: turn the user's request into a project goal.
pub fn convert_user_input_to_goal(_user_request: &str) -> (r: &'static str)
    ensures
        r@ == "fn convert_user_input_to_goal(user_request: &str) -> String { /* Converts the user request into a concise goal for a website build, keeping all details relevant to implementation. */ }"@,
{
    "fn convert_user_input_to_goal(user_request: &str) -> String { /* Converts the user request into a concise goal for a website build, keeping all details relevant to implementation. */ }"
}

/// Prompt text: derive the structured project scope.
pub fn print_project_scope(_project_description: &str) -> (r: &'static str)
    ensures
        r@ == "fn print_project_scope(project_description: &str) -> ProjectScope { /* Returns a JSON object with the booleans is_crud_required, is_user_login_and_logout_required and is_external_urls_required. */ }"@,
{
    "fn print_project_scope(project_description: &str) -> ProjectScope { /* Returns a JSON object with the booleans is_crud_required, is_user_login_and_logout_required and is_external_urls_required. */ }"
}

/// Prompt text: list the external site URLs the project needs.
pub fn print_site_urls(_project_description: &str) -> (r: &'static str)
    ensures
        r@ == "fn print_site_urls(project_description: &str) -> Vec<String> { /* Returns a JSON array of the external URLs the described website depends on. */ }"@,
{
    "fn print_site_urls(project_description: &str) -> Vec<String> { /* Returns a JSON array of the external URLs the described website depends on. */ }"
}

/// Prompt text: generate the first cut of the backend code.
pub fn print_backend_webserver_code(_code_and_description: &str) -> (r: &'static str)
    ensures
        r@ == "fn print_backend_webserver_code(code_and_description: &str) -> String { /* Takes a code template and a project description and returns complete backend server code for the described project. Prints only code. */ }"@,
{
    "fn print_backend_webserver_code(code_and_description: &str) -> String { /* Takes a code template and a project description and returns complete backend server code for the described project. Prints only code. */ }"
}

/// Prompt text: improve working backend code.
pub fn print_improved_webserver_code(_code_and_project: &str) -> (r: &'static str)
    ensures
        r@ == "fn print_improved_webserver_code(code_and_project: &str) -> String { /* Takes backend code and the full project record and returns improved backend code. Prints only code. */ }"@,
{
    "fn print_improved_webserver_code(code_and_project: &str) -> String { /* Takes backend code and the full project record and returns improved backend code. Prints only code. */ }"
}

/// Prompt text: repair backend code that failed to build.
pub fn print_fixed_code(_broken_code_and_bugs: &str) -> (r: &'static str)
    ensures
        r@ == "fn print_fixed_code(broken_code_and_bugs: &str) -> String { /* Takes broken backend code and the build errors and returns fixed backend code. Prints only code. */ }"@,
{
    "fn print_fixed_code(broken_code_and_bugs: &str) -> String { /* Takes broken backend code and the build errors and returns fixed backend code. Prints only code. */ }"
}

/// Prompt text: extract the REST endpoint schema from backend code.
pub fn print_rest_api_endpoints(_code_input: &str) -> (r: &'static str)
    ensures
        r@ == "fn print_rest_api_endpoints(code_input: &str) -> String { /* Reads backend server code and returns a JSON array of objects with the keys route, is_route_dynamic, method, request_body and response. Prints only JSON. */ }"@,
{
    "fn print_rest_api_endpoints(code_input: &str) -> String { /* Reads backend server code and returns a JSON array of objects with the keys route, is_route_dynamic, method, request_body and response. Prints only JSON. */ }"
}

} // verus!
