//! The shared data model: the project record that the agents fill in,
//! its scope flags, and the endpoint routes extracted from generated
//! code.

pub mod endpoint_route;
pub mod project;
pub mod project_scope;
