use fae_agent::executor::{RegisteredTool, ToolExecutor};
use fae_agent::folders::{AllowedFolder, FolderSettings, FolderValidator};

fn no_canonical(_p: &str) -> Option<String> {
    None
}

fn create_test_executor() -> ToolExecutor {
    ToolExecutor::new("/tmp/fae-test".to_string(), no_canonical)
}

#[test]
fn test_tool_executor_creation() {
    let executor = create_test_executor();
    let tool_names = executor.list_tools();

    assert!(tool_names.contains(&"bash"));
    assert!(tool_names.contains(&"read_file"));
    assert!(tool_names.contains(&"write_file"));
    assert!(tool_names.contains(&"list_directory"));
}

#[test]
fn test_get_tool() {
    let executor = create_test_executor();

    assert!(executor.get_tool("bash").is_some());
    assert!(executor.get_tool("read_file").is_some());
    assert!(executor.get_tool("nonexistent").is_none());
}

#[test]
fn test_get_tool_definitions() {
    let executor = create_test_executor();
    let definitions = executor.get_tool_definitions();

    assert_eq!(definitions.len(), 4);

    let bash_def = definitions
        .iter()
        .find(|d| d.function.as_ref().unwrap().name == "bash");
    assert!(bash_def.is_some());
    assert_eq!(bash_def.unwrap().tool_type, "function");
}

fn folder(path: &str, is_base: bool) -> AllowedFolder {
    AllowedFolder {
        id: format!("id-{}", path),
        path: path.to_string(),
        name: path.to_string(),
        is_base,
        created_at: 0,
    }
}

fn identity_canonical(p: &str) -> Result<String, String> {
    Ok(p.to_string())
}

fn validator() -> FolderValidator {
    FolderValidator::from_settings(FolderSettings {
        folder_configs: vec![folder("/work", true), folder("/data", false)],
    })
}

#[test]
fn executor_registers_skills_and_replaces_by_name() {
    let mut executor = create_test_executor();
    executor.register_skill("weather".to_string(), "Weather".to_string(), "/skills/weather".to_string());
    assert_eq!(executor.list_tools().len(), 5);
    assert!(matches!(executor.get_tool("weather"), Some(RegisteredTool::Skill(_))));
    executor.register_skill("weather".to_string(), "Weather again".to_string(), "/skills/w2".to_string());
    assert_eq!(executor.list_tools().len(), 5);
    let defs = executor.get_tool_definitions();
    let weather = defs
        .iter()
        .find(|d| d.function.as_ref().unwrap().name == "weather")
        .unwrap();
    assert_eq!(weather.function.as_ref().unwrap().description, "Weather again");
    executor.register_skill("bash".to_string(), "shadow".to_string(), "/x".to_string());
    assert!(matches!(executor.get_tool("bash"), Some(RegisteredTool::Skill(_))));
    assert_eq!(executor.list_tools().len(), 5);
}

#[test]
fn executor_bash_args_are_confined() {
    let executor = ToolExecutor::with_folder_validation(validator(), "/cwd".to_string(), no_canonical);
    let v = validator();
    assert_eq!(executor.validate_bash_args("ls sub", &v, identity_canonical), Ok("ls /work/sub".to_string()));
    assert_eq!(executor.validate_bash_args("cat /data/x.txt", &v, identity_canonical), Ok("cat /data/x.txt".to_string()));
    assert_eq!(executor.validate_bash_args("ls   ", &v, identity_canonical), Ok("ls   ".to_string()));
    assert_eq!(executor.validate_bash_args("echo hi", &v, identity_canonical), Ok("echo hi".to_string()));
    assert_eq!(
        executor.validate_bash_args("rm /etc/passwd", &v, identity_canonical),
        Err("Path '/etc/passwd' is not in any allowed folder. Please add it to your allowed folders list in settings.".to_string())
    );
}

#[test]
fn executor_checks_tool_arguments() {
    let plain = create_test_executor();
    assert_eq!(
        plain.validate_path_for_tool("read_file", Some("/etc/passwd"), None, identity_canonical),
        Ok((None, None))
    );
    let executor = ToolExecutor::with_folder_validation(validator(), "/cwd".to_string(), no_canonical);
    assert_eq!(
        executor.validate_path_for_tool("read_file", Some("notes.txt"), None, identity_canonical),
        Ok((Some("/work/notes.txt".to_string()), None))
    );
    assert_eq!(
        executor.validate_path_for_tool("bash", None, Some("cd data"), identity_canonical),
        Ok((None, Some("cd /work/data".to_string())))
    );
    assert_eq!(
        executor.validate_path_for_tool("read_file", None, Some("cd /etc"), identity_canonical),
        Ok((None, None))
    );
    assert!(executor
        .validate_path_for_tool("write_file", Some("/etc/x"), None, identity_canonical)
        .is_err());
}

#[test]
fn executor_prepares_known_tools_only() {
    let executor = create_test_executor();
    match executor.prepare_tool("unknown_tool", None, None, identity_canonical) {
        Err(r) => {
            assert!(!r.success);
            assert_eq!(r.error, Some("Unknown tool: unknown_tool".to_string()));
        }
        Ok(_) => panic!("an unknown tool must be refused"),
    }
    match executor.prepare_tool("bash", None, Some("hello"), identity_canonical) {
        Ok((tool, path, args)) => {
            assert_eq!(tool.name(), "bash");
            assert!(path.is_none());
            assert!(args.is_none());
        }
        Err(_) => panic!("bash is registered"),
    }
    let guarded = ToolExecutor::with_folder_validation(validator(), "/cwd".to_string(), no_canonical);
    match guarded.prepare_tool("read_file", Some("/etc/shadow"), None, identity_canonical) {
        Err(r) => assert!(r.error.unwrap().contains("not in any allowed folder")),
        Ok(_) => panic!("a path outside the folders must be refused"),
    }
}

#[test]
fn executor_working_directory_follows_base_folder() {
    let executor = ToolExecutor::with_folder_validation(validator(), "/cwd".to_string(), no_canonical);
    let names = executor.list_tools();
    assert_eq!(names, vec!["bash", "read_file", "write_file", "list_directory"]);
    let no_base = FolderValidator::from_settings(FolderSettings { folder_configs: vec![folder("/data", false)] });
    let e2 = ToolExecutor::with_folder_validation(no_base, "/cwd".to_string(), no_canonical);
    assert_eq!(
        e2.validate_path_for_tool("read_file", Some("rel.txt"), None, identity_canonical),
        Err("No base folder configured. Please set up a base folder in settings.".to_string())
    );
}
