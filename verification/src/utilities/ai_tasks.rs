//! Prompt construction for oracle tasks: every request sent to the
//! oracle is a pseudo-function text extended with the "function printer"
//! instruction and the concrete input.

use vstd::prelude::*;
use vstd::string::StringExecFns;

use crate::api::open_ai::Message;
use crate::api::open_ai::Role;

verus! {

/// The exact content of an extended prompt: the pseudo-function text,
/// the fixed function-printer instruction, and the input.
pub open spec fn extended_content(function_text: Seq<char>, function_input: Seq<char>) -> Seq<
    char,
> {
    "FUNCTION: "@ + function_text
        + "\n    INSTRUCTION: You are a function printer. You ONLY print the results of functions.\n    Nothing else. No commentary. Here is the input to the function: "@
        + function_input + ".\n    Print out what the function will return."@
}

/// Build the system message that asks the oracle to act as the given
/// pseudo-function on the given input.
pub fn build_function_printer_message(function_text: &str, function_input: &str) -> (m: Message)
    ensures
        m.role == Role::System,
        m.content@ == extended_content(function_text@, function_input@),
{
    let mut content: String = "FUNCTION: ".to_owned();
    content.append(function_text);
    content.append(
        "\n    INSTRUCTION: You are a function printer. You ONLY print the results of functions.\n    Nothing else. No commentary. Here is the input to the function: ",
    );
    content.append(function_input);
    content.append(".\n    Print out what the function will return.");
    Message { role: Role::System, content }
}

/// Extend a pseudo-function to encourage the oracle to print only the
/// function's output for the given input.
pub fn extend_ai_function<F: Fn(&str) -> &'static str>(ai_function: F, function_input: &str) -> (m:
    Message)
    requires
        call_requires(ai_function, (function_input,)),
    ensures
        m.role == Role::System,
        exists|function_text: &'static str|
            call_ensures(ai_function, (function_input,), function_text) && m.content@
                == extended_content(function_text@, function_input@),
{
    let function_text = ai_function(function_input);
    build_function_printer_message(function_text, function_input)
}

} // verus!
