//! Supporting utilities: prompt construction, command-line statement
//! preparation, and the paths of the generated project's artifacts.

pub mod ai_tasks;
pub mod backend_code_persistence;
pub mod command_line;
pub mod networking;
