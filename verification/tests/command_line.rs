use autocoder::CommandLine;
use autocoder::StatementColor;

#[test]
fn test_print_agent_message() {
    let agent_position = "Managing Agent".to_string();
    let statement = CommandLine::print_agent_unit_test_message(
        &agent_position,
        "Testing testing, processing something",
    );
    assert_eq!(statement.label, "Agent: Managing Agent: ");
    assert_eq!(statement.statement, "Testing testing, processing something");
    assert_eq!(statement.color, StatementColor::Magenta);
}

#[test]
fn statement_kinds_have_their_colors() {
    let agent_position = "Backend Developer".to_string();
    let generation = CommandLine::print_agent_generation_message(&agent_position, "generating");
    assert_eq!(generation.color, StatementColor::Cyan);
    assert_eq!(generation.label, "Agent: Backend Developer: ");
    let issue = CommandLine::print_agent_error_message(&agent_position, "something failed");
    assert_eq!(issue.color, StatementColor::Red);
    assert_eq!(issue.statement, "something failed");
}

#[test]
fn safety_gate_answers() {
    assert_eq!(CommandLine::interpret_safety_response("1"), Some(true));
    assert_eq!(CommandLine::interpret_safety_response("ok"), Some(true));
    assert_eq!(CommandLine::interpret_safety_response("y"), Some(true));
    assert_eq!(CommandLine::interpret_safety_response("2"), Some(false));
    assert_eq!(CommandLine::interpret_safety_response("no"), Some(false));
    assert_eq!(CommandLine::interpret_safety_response("n"), Some(false));
    assert_eq!(CommandLine::interpret_safety_response("maybe"), None);
    assert_eq!(CommandLine::interpret_safety_response(""), None);
}
