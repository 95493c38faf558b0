//! The structured scope the discovery step derives from a project
//! description.

use vstd::prelude::*;

verus! {

/// What kind of site the project needs. Filled in by the solutions
/// architect from the free-text description.
#[derive(Debug, Clone, Copy, PartialEq, Eq, Structural)]
pub struct ProjectScope {
    pub is_crud_required: bool,
    pub is_user_login_and_logout_required: bool,
    pub is_external_urls_required: bool,
}

} // verus!
