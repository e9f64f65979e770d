use fae_agent::tools::{
    BashTool, ListDirectoryTool, ReadFileTool, SkillTool, Tool, ToolResult, WriteFileTool,
};

#[test]
fn test_tool_result_success() {
    let result = ToolResult::success("output".to_string());
    assert!(result.success);
    assert_eq!(result.output, "output");
    assert!(result.error.is_none());
}

#[test]
fn test_tool_result_error() {
    let result = ToolResult::error("error message".to_string());
    assert!(!result.success);
    assert!(result.output.is_empty());
    assert_eq!(result.error, Some("error message".to_string()));
}

#[test]
fn test_bash_tool_creation() {
    let tool = BashTool::new("/tmp".to_string());
    assert_eq!(tool.name(), "bash");
    assert!(tool.description().contains("Execute bash commands"));
}

#[test]
fn test_bash_tool_is_command_allowed() {
    let tool = BashTool::new("/tmp".to_string());
    assert!(tool.is_command_allowed("ls"));
    assert!(tool.is_command_allowed("cat file.txt"));
    assert!(tool.is_command_allowed("rm"));
    assert!(!tool.is_command_allowed("sudo ls"));
    assert!(!tool.is_command_allowed("chmod"));
}

#[test]
fn test_read_file_tool_creation() {
    let tool = ReadFileTool::new("/tmp".to_string());
    assert_eq!(tool.name(), "read_file");
    assert!(tool.description().contains("Read the contents"));
}

#[test]
fn test_write_file_tool_creation() {
    let tool = WriteFileTool::new("/tmp".to_string());
    assert_eq!(tool.name(), "write_file");
    assert!(tool.description().contains("Write content to a file"));
}

#[test]
fn test_list_directory_tool_creation() {
    let tool = ListDirectoryTool::new("/tmp".to_string());
    assert_eq!(tool.name(), "list_directory");
    assert!(tool.description().contains("List the contents"));
}

#[test]
fn test_tool_to_tool_definition() {
    let tool = BashTool::new("/tmp".to_string());
    let definition = tool.to_tool_definition();
    assert_eq!(definition.tool_type, "function");
    assert_eq!(definition.function.as_ref().unwrap().name, "bash");
    assert!(definition
        .function
        .as_ref()
        .unwrap()
        .description
        .contains("Execute bash commands"));
}

#[test]
fn test_skill_tool_creation() {
    let tool = SkillTool::new(
        "weather".to_string(),
        "Get weather information".to_string(),
        "/skills/weather".to_string(),
    );
    assert_eq!(tool.name(), "weather");
    assert!(tool.description().contains("weather"));
}

fn canonical_under_tmp(p: &str) -> Result<String, String> {
    if p.contains("missing") {
        Err("No such file or directory (os error 2)".to_string())
    } else {
        Ok(p.replace("/../", "/"))
    }
}

#[test]
fn bash_prepare_command_allows_and_refuses() {
    let tool = BashTool::new("/tmp".to_string());
    assert_eq!(tool.prepare_command("echo", "hello world"), Ok("echo hello world".to_string()));
    assert_eq!(tool.prepare_command("pwd", ""), Ok("pwd".to_string()));
    let refused = tool.prepare_command("sudo", "ls").unwrap_err();
    assert!(refused.starts_with("Command 'sudo' is not allowed. Allowed commands: [\"ls\", \"cat\""));
    assert!(refused.contains("not allowed"));
    let narrowed = BashTool::new("/tmp".to_string()).with_allowed_commands(vec!["echo".to_string()]);
    assert!(narrowed.is_command_allowed("echo hi"));
    assert!(!narrowed.is_command_allowed("ls"));
    assert!(!tool.is_command_allowed(""));
    assert!(tool.is_command_allowed("  ls   -la"));
}

#[test]
fn bash_command_results() {
    let ok = BashTool::command_result(Ok((true, "hello\n".to_string(), String::new())));
    assert!(ok.success);
    assert_eq!(ok.output, "hello\n");
    let failed = BashTool::command_result(Ok((false, String::new(), "boom".to_string())));
    assert_eq!(failed.error, Some("Command failed: boom".to_string()));
    let not_run = BashTool::command_result(Err("no shell".to_string()));
    assert_eq!(not_run.error, Some("Failed to execute command: no shell".to_string()));
}

#[test]
fn read_tool_confines_paths() {
    let tool = ReadFileTool::new("/tmp/work".to_string());
    assert_eq!(tool.validate_path("a.txt", canonical_under_tmp), Ok("/tmp/work/a.txt".to_string()));
    assert_eq!(
        tool.validate_path("/etc/passwd", canonical_under_tmp),
        Err("Path traversal not allowed".to_string())
    );
    assert_eq!(
        tool.validate_path("missing.txt", canonical_under_tmp),
        Err("Invalid path: No such file or directory (os error 2)".to_string())
    );
    assert_eq!(
        tool.validate_path("/tmp/workshop/x", canonical_under_tmp),
        Err("Path traversal not allowed".to_string())
    );
}

#[test]
fn read_tool_results() {
    let ok = ReadFileTool::read_result(Ok("text".to_string()));
    assert!(ok.success);
    assert_eq!(ok.output, "text");
    let err = ReadFileTool::read_result(Err("denied".to_string()));
    assert!(!err.success);
    assert!(err.error.unwrap().contains("denied"));
}

#[test]
fn list_directory_listing() {
    let r = ListDirectoryTool::listing_result(Ok(vec![
        ("file1.txt".to_string(), false),
        ("subdir".to_string(), true),
    ]));
    assert!(r.success);
    assert_eq!(r.output, "FILE: file1.txt\nDIR: subdir");
    let empty = ListDirectoryTool::listing_result(Ok(vec![]));
    assert_eq!(empty.output, "");
}

#[test]
fn skill_tool_script_file() {
    let tool = SkillTool::new("weather".to_string(), "Weather".to_string(), "/skills/weather".to_string());
    assert_eq!(tool.script_file(true), "/skills/weather/weather.js");
    assert_eq!(tool.script_file(false), "/skills/weather");
    let missing = SkillTool::missing_script("/skills/weather/weather.js");
    assert_eq!(missing.error, Some("Skill script not found: /skills/weather/weather.js".to_string()));
    let failed = SkillTool::skill_result(Ok((false, String::new(), "bad".to_string())));
    assert_eq!(failed.error, Some("Skill execution failed: bad".to_string()));
    let param_names: Vec<String> = tool.parameters().properties.iter().map(|p| p.name.clone()).collect();
    assert_eq!(param_names, vec!["input".to_string()]);
}
