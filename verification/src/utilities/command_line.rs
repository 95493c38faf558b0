//! Command-line statement preparation: which colour an agent statement
//! is shown in, the exact line text, and the interpretation of the
//! safety-gate answer. Writing to the terminal and reading from it is
//! the driver's work.

use vstd::prelude::*;
use vstd::string::StringExecFns;

verus! {

/// The colour a prepared statement is printed in. The agent label in
/// front of it is always printed in green.
#[derive(Debug, Clone, Copy, PartialEq, Eq, Structural)]
pub enum StatementColor {
    Cyan,
    Magenta,
    Red,
}

/// What kind of statement an agent is making.
#[derive(Debug, Clone, Copy, PartialEq, Eq, Structural)]
pub enum CommandLineStatementKind {
    /// Narrating a generation step.
    Generation,
    /// Narrating a validation (unit-testing) step.
    UnitTest,
    /// Reporting a problem.
    Issue,
}

/// A statement ready to print: the green agent label, the statement
/// text, and the colour the text is shown in.
pub struct AgentStatement {
    pub label: String,
    pub statement: String,
    pub color: StatementColor,
}

/// The colour of each statement kind.
pub open spec fn color_of_kind(kind: CommandLineStatementKind) -> StatementColor {
    match kind {
        CommandLineStatementKind::Generation => StatementColor::Cyan,
        CommandLineStatementKind::UnitTest => StatementColor::Magenta,
        CommandLineStatementKind::Issue => StatementColor::Red,
    }
}

/// The exact label text in front of a statement of this agent.
pub open spec fn agent_label(agent_position: Seq<char>) -> Seq<char> {
    "Agent: "@ + agent_position + ": "@
}

pub struct CommandLine {}

impl CommandLine {
    /// A generation statement, shown in cyan.
    pub fn print_agent_generation_message(agent_position: &String, agent_statement: &str) -> (s:
        AgentStatement)
        ensures
            s.label@ == agent_label(agent_position@),
            s.statement@ == agent_statement@,
            s.color == StatementColor::Cyan,
    {
        Self::print_agent_message(
            agent_position,
            agent_statement,
            CommandLineStatementKind::Generation,
        )
    }

    /// A validation statement, shown in magenta.
    pub fn print_agent_unit_test_message(agent_position: &String, agent_statement: &str) -> (s:
        AgentStatement)
        ensures
            s.label@ == agent_label(agent_position@),
            s.statement@ == agent_statement@,
            s.color == StatementColor::Magenta,
    {
        Self::print_agent_message(
            agent_position,
            agent_statement,
            CommandLineStatementKind::UnitTest,
        )
    }

    /// A problem report, shown in red.
    pub fn print_agent_error_message(agent_position: &String, agent_statement: &str) -> (s:
        AgentStatement)
        ensures
            s.label@ == agent_label(agent_position@),
            s.statement@ == agent_statement@,
            s.color == StatementColor::Red,
    {
        Self::print_agent_message(agent_position, agent_statement, CommandLineStatementKind::Issue)
    }

    /// Prepare one agent statement of the given kind.
    fn print_agent_message(
        agent_position: &String,
        agent_statement: &str,
        agent_statement_kind: CommandLineStatementKind,
    ) -> (s: AgentStatement)
        ensures
            s.label@ == agent_label(agent_position@),
            s.statement@ == agent_statement@,
            s.color == color_of_kind(agent_statement_kind),
    {
        let color = match agent_statement_kind {
            CommandLineStatementKind::Generation => StatementColor::Cyan,
            CommandLineStatementKind::UnitTest => StatementColor::Magenta,
            CommandLineStatementKind::Issue => StatementColor::Red,
        };
        let mut label: String = "Agent: ".to_owned();
        label.append(agent_position.as_str());
        label.append(": ");
        AgentStatement { label, statement: agent_statement.to_owned(), color }
    }

    /// What a sanitized (trimmed, lower-cased) response line answers the
    /// safety gate: approval, decline, or nothing recognizable.
    pub open spec fn spec_interpret_safety_response(response: Seq<char>) -> Option<bool> {
        if response == "1"@ || response == "ok"@ || response == "y"@ {
            Some(true)
        } else if response == "2"@ || response == "no"@ || response == "n"@ {
            Some(false)
        } else {
            None
        }
    }

    /// Read the safety gate's answer out of a sanitized (trimmed,
    /// lower-cased) response line: `Some(true)` approves, `Some(false)`
    /// declines, `None` means the question must be asked again.
    pub fn interpret_safety_response(response: &str) -> (r: Option<bool>)
        ensures
            r == Self::spec_interpret_safety_response(response@),
    {
        if Self::str_eq(response, "1") || Self::str_eq(response, "ok") || Self::str_eq(
            response,
            "y",
        ) {
            Some(true)
        } else if Self::str_eq(response, "2") || Self::str_eq(response, "no") || Self::str_eq(
            response,
            "n",
        ) {
            Some(false)
        } else {
            None
        }
    }

    /// Whether two string slices hold the same characters.
    fn str_eq(a: &str, b: &str) -> (r: bool)
        ensures
            r == (a@ == b@),
    {
        a.to_owned() == b.to_owned()
    }
}

} // verus!
