//! The project record: the single piece of state shared across agents.
//! The sequencer owns it and hands it to one agent at a time by
//! exclusive mutable reference; no two agents ever touch it at once.

use vstd::prelude::*;

use crate::model::endpoint_route::EndpointRoute;
use crate::model::project_scope::ProjectScope;

verus! {

/// Everything known about the product being built. Created once per user
/// request; each agent fills in the parts it is responsible for.
pub struct Project {
    /// The goal derived from the user's free-text request.
    pub description: String,
    /// Filled by the solutions architect.
    pub scope: Option<ProjectScope>,
    /// External site URLs the product depends on, liveness-filtered.
    pub external_urls: Option<Vec<String>>,
    /// The latest generated server code.
    pub backend_code: Option<String>,
    /// The full extracted REST endpoint schema (unfiltered).
    pub api_endpoint_schema: Option<Vec<EndpointRoute>>,
}

/// The mathematical value of a project record: vectors become sequences.
pub ghost struct ProjectModel {
    pub description: String,
    pub scope: Option<ProjectScope>,
    pub external_urls: Option<Seq<String>>,
    pub backend_code: Option<String>,
    pub api_endpoint_schema: Option<Seq<EndpointRoute>>,
}

impl View for Project {
    type V = ProjectModel;

    open spec fn view(&self) -> ProjectModel {
        ProjectModel {
            description: self.description,
            scope: self.scope,
            external_urls: match self.external_urls {
                Some(urls) => Some(urls@),
                None => None,
            },
            backend_code: self.backend_code,
            api_endpoint_schema: match self.api_endpoint_schema {
                Some(routes) => Some(routes@),
                None => None,
            },
        }
    }
}

impl Project {
    /// A fresh project that only knows its description.
    pub fn new(description: String) -> (p: Project)
        ensures
            p@ == (ProjectModel {
                description: description,
                scope: None,
                external_urls: None,
                backend_code: None,
                api_endpoint_schema: None,
            }),
    {
        Project {
            description,
            scope: None,
            external_urls: None,
            backend_code: None,
            api_endpoint_schema: None,
        }
    }
}

} // verus!
