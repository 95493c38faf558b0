//! The shapes spoken with the code-generation oracle's API.

pub mod open_ai;
