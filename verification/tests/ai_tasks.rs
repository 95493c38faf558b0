use autocoder::build_function_printer_message;
use autocoder::convert_user_input_to_goal;
use autocoder::extend_ai_function;
use autocoder::Role;

#[test]
fn test_extending_ai_function() {
    let extended_message = extend_ai_function(convert_user_input_to_goal, "dummy variable");
    assert_eq!(extended_message.role, Role::System);
}

#[test]
fn extended_prompt_has_exact_shape() {
    let message = build_function_printer_message("fn f()", "some input");
    assert_eq!(message.role, Role::System);
    assert_eq!(
        message.content,
        "FUNCTION: fn f()\n    INSTRUCTION: You are a function printer. You ONLY print the results of functions.\n    Nothing else. No commentary. Here is the input to the function: some input.\n    Print out what the function will return."
    );
}

#[test]
fn extended_prompt_carries_function_text_and_input() {
    let message = extend_ai_function(convert_user_input_to_goal, "dummy variable");
    assert!(message.content.starts_with("FUNCTION: fn convert_user_input_to_goal"));
    assert!(message.content.contains("Here is the input to the function: dummy variable."));
}
