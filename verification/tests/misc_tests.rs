use fae_agent::api::{
    echo_events, enabled_flag, ollama_settings, processed_completion, skill_update_response,
    socket_echo, ApiResponse, LoginResponse, StatusResponse,
};
use fae_agent::agent_chat::ChatEvent;
use fae_agent::folders::{
    default_base_folder, default_workspace_path, AllowedFolder, FolderSettings, FolderValidator,
};
use fae_agent::log::{log_path, LLMEventData, LLMEventType, LogEvent};
use fae_agent::maps::StringMap;
use fae_agent::paths::{is_absolute_path, join_paths, starts_with_path};
use fae_agent::schema::{ToolDefinition, ToolParameters};
use fae_agent::skills::Skill;

#[test]
fn test_function_tool_helper() {
    let tool = ToolDefinition::function_tool(
        "search".to_string(),
        "Search the web".to_string(),
        ToolParameters::new(),
    );

    assert_eq!(tool.tool_type, "function");
    assert!(tool.function.is_some());
    let func = tool.function.as_ref().unwrap();
    assert_eq!(func.name, "search");
    assert_eq!(func.description, "Search the web");
}

#[test]
fn test_builtin_tool_definition() {
    let tool = ToolDefinition::builtin_tool("web_search_preview");
    assert_eq!(tool.tool_type, "web_search_preview");
    assert!(tool.function.is_none());
}

#[test]
fn paths_join_and_compare_by_components() {
    assert_eq!(join_paths("/a/b", "c"), "/a/b/c");
    assert_eq!(join_paths("/a/b/", "c"), "/a/b/c");
    assert_eq!(join_paths("/a/b", "/etc"), "/etc");
    assert_eq!(join_paths("", "c"), "c");
    assert!(is_absolute_path("/x"));
    assert!(!is_absolute_path("x"));
    assert!(starts_with_path("/work/sub/file", "/work"));
    assert!(starts_with_path("/work//sub/./f", "/work/sub"));
    assert!(!starts_with_path("/workshop", "/work"));
    assert!(starts_with_path("/work", "/work/"));
}

fn folder(path: &str, is_base: bool) -> AllowedFolder {
    AllowedFolder {
        id: path.to_string(),
        path: path.to_string(),
        name: path.to_string(),
        is_base,
        created_at: 7,
    }
}

#[test]
fn folder_validator_confines_paths() {
    let settings = FolderSettings { folder_configs: vec![folder("/data", false), folder("/work", true)] };
    assert_eq!(settings.get_base_folder().unwrap().path, "/work");
    let v = FolderValidator::from_settings(settings);
    let canon = |p: &str| -> Result<String, String> { Ok(p.to_string()) };
    assert_eq!(v.validate_path("notes.md", canon), Ok("/work/notes.md".to_string()));
    assert_eq!(v.validate_path("/data/x", canon), Ok("/data/x".to_string()));
    assert_eq!(
        v.validate_path("/tmp/x", canon),
        Err("Path '/tmp/x' is not in any allowed folder. Please add it to your allowed folders list in settings.".to_string())
    );
    let failing = |_p: &str| -> Result<String, String> { Err("gone".to_string()) };
    assert_eq!(v.validate_path("/data/x", failing), Err("Invalid path: gone".to_string()));
    assert_eq!(v.get_working_directory("/cwd".to_string()), "/work");
    let empty = FolderValidator::from_settings(FolderSettings::empty());
    assert!(empty.get_base_folder().is_none());
    assert_eq!(empty.get_working_directory("/cwd".to_string()), "/cwd");
}

#[test]
fn new_folders_get_fresh_ids() {
    let a = AllowedFolder::new("/x".to_string(), "X".to_string(), false).expect("random source and clock");
    let b = AllowedFolder::new("/x".to_string(), "X".to_string(), false).expect("random source and clock");
    assert_eq!(a.id.len(), 36);
    assert_ne!(a.id, b.id);
    assert!(a.created_at > 1_600_000_000);
    let d = default_base_folder(Some("/home/me".to_string())).expect("random source and clock");
    assert_eq!(d.path, "/home/me/fae-workspace");
    assert_eq!(d.name, "Default Workspace");
    assert!(d.is_base);
    assert_eq!(default_workspace_path(None), "./fae-workspace");
}

#[test]
fn api_answers() {
    let s = StatusResponse::ok("0.1.0".to_string(), 5);
    assert_eq!(s.status, "ok");
    let c = processed_completion("test-id", "Hello world!", "id-1".to_string(), 9);
    assert_eq!(c.message, "Processed chat request for agent test-id: Hello world!");
    assert!(c.message.contains("test-id"));
    assert!(c.message.contains("Hello world!"));
    assert_eq!(c.model, "mock-model");
    let events = echo_events("hey");
    match &events[0] {
        ChatEvent::Chunk(t) => assert_eq!(t, "Echo: hey"),
        _ => panic!(),
    }
    assert!(matches!(events[1], ChatEvent::Done));
    assert_eq!(socket_echo("ping"), "Echo via WS: ping");
    assert_eq!(ollama_settings(None).base_url, "http://127.0.0.1:11434");
    assert_eq!(ollama_settings(Some("http://h:1".to_string())).base_url, "http://h:1");
    let missing = skill_update_response(None);
    assert!(!missing.ok);
    let err = missing.error.unwrap();
    assert_eq!(err.code, "NOT_FOUND");
    assert_eq!(err.message, "Skill not found");
    let found = skill_update_response(Some(Skill { id: "a".to_string(), name: "A".to_string(), enabled: 0 }));
    assert!(found.ok);
    assert_eq!(found.data.unwrap().id, "a");
    assert_eq!(enabled_flag(true), 1);
    assert_eq!(enabled_flag(false), 0);
    let r: ApiResponse<u32> = ApiResponse::success(3);
    assert!(r.ok && r.data == Some(3) && r.error.is_none());
    let l = LoginResponse::logged_in("tok".to_string());
    assert_eq!(l.data.unwrap().session_token, "tok");
}

#[test]
fn log_records() {
    assert_eq!(log_path("./logs/llm", "session_1"), "./logs/llm/session_1.jsonl");
    let e = LogEvent::tool_result("c1", "bash", "ok");
    assert!(matches!(e.event_type, LLMEventType::ToolResult));
    match e.data {
        LLMEventData::ToolResult(d) => {
            assert_eq!(d.tool_call_id, "c1");
            assert_eq!(d.result, "ok");
        }
        _ => panic!(),
    }
    let r = LogEvent::llm_request("ollama", "llama2", "http://x", 2, Some(4));
    match r.data {
        LLMEventData::LLMRequest(d) => {
            assert_eq!(d.messages_count, 2);
            assert_eq!(d.tools_count, Some(4));
        }
        _ => panic!(),
    }
    assert!(matches!(LogEvent::session_start().data, LLMEventData::Empty));
}

#[test]
fn string_map_reads_back() {
    let mut m = StringMap::new();
    m.insert("a".to_string(), "1".to_string());
    m.insert("b".to_string(), "2".to_string());
    m.insert("a".to_string(), "3".to_string());
    assert_eq!(m.get("a"), Some(&"3".to_string()));
    assert_eq!(m.get("b"), Some(&"2".to_string()));
    assert_eq!(m.len(), 2);
    let (k, v) = m.entry(0);
    assert_eq!((k.as_str(), v.as_str()), ("a", "3"));
}

#[test]
fn log_response_record() {
    let e = LogEvent::llm_response("done", vec![], true);
    assert!(matches!(e.event_type, LLMEventType::LLMResponse));
    match e.data {
        LLMEventData::LLMResponse(d) => {
            assert_eq!(d.content, "done");
            assert!(d.tool_calls.is_empty());
            assert!(d.done);
        }
        _ => panic!(),
    }
    match LogEvent::error("boom").data {
        LLMEventData::Error { message } => assert_eq!(message, "boom"),
        _ => panic!(),
    }
    match LogEvent::tool_call("c", "bash", "{}").data {
        LLMEventData::ToolCall(d) => assert_eq!(d.arguments, "{}"),
        _ => panic!(),
    }
}

#[test]
fn test_tool_definition() {
    let parameters = ToolParameters::new().with_property("location", String::new(), false);
    let tool = ToolDefinition::function_tool(
        "get_weather".to_string(),
        "Get weather info".to_string(),
        parameters,
    );

    assert_eq!(tool.tool_type, "function");
    let func = tool.function.as_ref().unwrap();
    assert_eq!(func.name, "get_weather");
    assert_eq!(func.parameters.properties[0].name, "location");
    assert!(func.parameters.required.is_empty());
}
