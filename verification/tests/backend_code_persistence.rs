use autocoder::BackendCodePersistence;

#[test]
fn test_backend_code_paths() {
    let backend_code_project_path = BackendCodePersistence::get_backend_code_project_path(
        "/workspace/project",
    );
    assert_eq!(backend_code_project_path, "/workspace/project/backend_code");

    let code_template_file_path = BackendCodePersistence::get_code_template_file_path(
        "/workspace/project",
    );
    assert_eq!(
        code_template_file_path,
        "/workspace/project/backend_code/src/template.rs"
    );

    let executable_main_file_path = BackendCodePersistence::get_executable_main_file_path(
        "/workspace/project",
    );
    assert_eq!(
        executable_main_file_path,
        "/workspace/project/backend_code/src/main.rs"
    );

    let api_schemas_file_path = BackendCodePersistence::get_api_schemas_file_path(
        "/workspace/project",
    );
    assert_eq!(
        api_schemas_file_path,
        "/workspace/project/backend_code/schemas/api_schema.json"
    );
}
