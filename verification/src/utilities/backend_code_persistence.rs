//! Where the generated project's artifacts live, relative to a project
//! directory. Reading and writing the files is the driver's work; the
//! paths themselves are built here.

use vstd::prelude::*;
use vstd::string::StringExecFns;

verus! {

pub struct BackendCodePersistence {}

impl BackendCodePersistence {
    /// The root of the generated backend project.
    pub fn get_backend_code_project_path(project_directory: &str) -> (r: String)
        ensures
            r@ == project_directory@ + "/backend_code"@,
    {
        let mut path = project_directory.to_owned();
        path.append("/backend_code");
        path
    }

    /// The code template handed to the oracle for the first generation.
    pub fn get_code_template_file_path(project_directory: &str) -> (r: String)
        ensures
            r@ == project_directory@ + "/backend_code/src/template.rs"@,
    {
        let mut path = project_directory.to_owned();
        path.append("/backend_code/src/template.rs");
        path
    }

    /// Where generated server code is saved and read back.
    pub fn get_executable_main_file_path(project_directory: &str) -> (r: String)
        ensures
            r@ == project_directory@ + "/backend_code/src/main.rs"@,
    {
        let mut path = project_directory.to_owned();
        path.append("/backend_code/src/main.rs");
        path
    }

    /// Where the extracted endpoint schema is persisted.
    pub fn get_api_schemas_file_path(project_directory: &str) -> (r: String)
        ensures
            r@ == project_directory@ + "/backend_code/schemas/api_schema.json"@,
    {
        let mut path = project_directory.to_owned();
        path.append("/backend_code/schemas/api_schema.json");
        path
    }
}

} // verus!
