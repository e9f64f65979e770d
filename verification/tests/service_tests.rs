use fae_agent::context::AgentContext;
use fae_agent::memory::ConversationMemory;
use fae_agent::service::LLMService;
use fae_agent::messages::{FunctionCall, ToolCall};
use fae_agent::prompts::PromptBuilder;

fn no_canonical(_p: &str) -> Option<String> {
    None
}

fn create_test_service() -> LLMService {
    let context = AgentContext::new(
        "agent-1".to_string(),
        "TestBot".to_string(),
        "ollama".to_string(),
        "llama2".to_string(),
    );
    LLMService::new(context, "/tmp".to_string(), no_canonical)
}

#[test]
fn test_llm_service_creation() {
    let service = create_test_service();
    assert_eq!(service.get_context().id, "agent-1");
    assert_eq!(service.get_context().name, "TestBot");
    assert!(service.get_memory().is_empty());
}

#[test]
fn test_llm_service_system_prompt() {
    let service = create_test_service();
    let prompt = service.build_system_prompt();
    assert!(prompt.contains("TestBot"));
    assert!(prompt.contains("agent-1"));
}

#[test]
fn test_llm_service_tools_with_system_tools() {
    let service = create_test_service();
    let tools = service.build_tools();
    assert!(tools.is_some());
    let tools = tools.unwrap();
    assert!(!tools.is_empty());
    let names: Vec<String> = tools
        .iter()
        .map(|t| t.function.as_ref().unwrap().name.clone())
        .collect();
    assert!(names.iter().any(|n| n == "bash"));
    assert!(names.iter().any(|n| n == "read_file"));
    assert!(names.iter().any(|n| n == "write_file"));
    assert!(names.iter().any(|n| n == "list_directory"));
}

#[test]
fn test_llm_service_add_messages() {
    let mut service = create_test_service();
    service.add_assistant_response("Hello".to_string());
    assert_eq!(service.get_memory().len(), 1);
    service.add_tool_result(
        "call_123".to_string(),
        "search".to_string(),
        "results".to_string(),
    );
    assert_eq!(service.get_memory().len(), 2);
}

#[test]
fn test_llm_service_clear_conversation() {
    let mut service = create_test_service();
    service.add_assistant_response("Hello".to_string());
    assert!(!service.get_memory().is_empty());
    service.clear_conversation();
    assert!(service.get_memory().is_empty());
}

#[test]
fn test_llm_service_conversation_summary() {
    let mut service = create_test_service();
    service.get_memory_mut().add_user_message("Hi".to_string());
    service.get_memory_mut().add_assistant_message("Hello".to_string());
    let summary = service.get_conversation_summary();
    assert!(summary.contains("1 user messages"));
    assert!(summary.contains("1 assistant messages"));
}

#[test]
fn test_llm_service_update_context() {
    let mut service = create_test_service();
    service.update_context(|ctx| {
        ctx.metadata.insert("version".to_string(), "2.0".to_string());
    });
    assert_eq!(
        service.get_context().metadata.get("version"),
        Some(&"2.0".to_string())
    );
}

#[test]
fn service_prepare_chat_sends_history_and_remembers() {
    let mut service = create_test_service();
    service.add_assistant_response("Earlier".to_string());
    let (messages, tools) = service.prepare_chat("Now".to_string());
    assert_eq!(messages.len(), 3);
    assert_eq!(messages[0].role, "system");
    assert_eq!(messages[0].content, service.build_system_prompt());
    assert_eq!(messages[1].content, "Earlier");
    assert_eq!(messages[2].role, "user");
    assert_eq!(messages[2].content, "Now");
    assert_eq!(tools.unwrap().len(), 4);
    assert_eq!(service.get_memory().len(), 2);
    assert_eq!(service.get_memory().last_user_message().unwrap().content, "Now");
}

#[test]
fn service_with_memory_and_provider_config() {
    let mut memory = ConversationMemory::new();
    memory.add_user_message("kept".to_string());
    let service = create_test_service()
        .with_memory(memory)
        .with_provider_config("http://other:11434".to_string(), String::new());
    assert_eq!(service.get_memory().len(), 1);
    assert_eq!(service.client().provider_type(), "ollama");
    assert_eq!(service.get_tool_executor().list_tools().len(), 4);
}

#[test]
fn service_mutable_parts_and_tool_turns() {
    let mut service = create_test_service().with_prompt_builder(PromptBuilder::new().with_agent_info(false));
    service.get_context_mut().name = "Renamed".to_string();
    assert_eq!(service.get_context().name, "Renamed");
    assert!(!service.build_system_prompt().contains("Renamed"));
    service.get_tool_executor_mut().register_skill("w".to_string(), "Weather".to_string(), "/s/w".to_string());
    assert_eq!(service.build_tools().unwrap().len(), 5);
    service.add_assistant_response_with_tools(
        String::new(),
        vec![ToolCall {
            id: "c".to_string(),
            tool_type: "function".to_string(),
            function: FunctionCall { name: "bash".to_string(), arguments: "{}".to_string() },
        }],
    );
    assert_eq!(service.get_memory().last_assistant_message().unwrap().tool_calls.as_ref().unwrap().len(), 1);
    let moved = service.with_working_directory("/srv".to_string(), no_canonical);
    assert_eq!(moved.get_tool_executor().list_tools().len(), 4);
    assert_eq!(moved.get_memory().len(), 1);
}
