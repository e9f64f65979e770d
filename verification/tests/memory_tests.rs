use fae_agent::memory::ConversationMemory;
use fae_agent::messages::{FunctionCall, ToolCall};

#[test]
fn test_memory_creation() {
    let memory = ConversationMemory::new();
    assert!(memory.is_empty());
    assert_eq!(memory.len(), 0);
}

#[test]
fn test_add_user_message() {
    let mut memory = ConversationMemory::new();
    memory.add_user_message("Hello".to_string());

    assert_eq!(memory.len(), 1);
    assert_eq!(memory.last_user_message().unwrap().content, "Hello");
}

#[test]
fn test_add_assistant_message() {
    let mut memory = ConversationMemory::new();
    memory.add_assistant_message("Hi there".to_string());

    assert_eq!(memory.len(), 1);
    assert_eq!(memory.last_assistant_message().unwrap().content, "Hi there");
}

#[test]
fn test_add_tool_result() {
    let mut memory = ConversationMemory::new();
    memory.add_tool_result(
        "call_123".to_string(),
        "search".to_string(),
        "Found results".to_string(),
    );

    assert_eq!(memory.len(), 1);
    let msg = &memory.get_messages()[0];
    assert_eq!(msg.role, "tool");
    assert!(msg.content.contains("search"));
    assert!(msg.content.contains("Found results"));
}

#[test]
fn test_max_messages_limit() {
    let mut memory = ConversationMemory::new().with_max_messages(3);

    memory.add_user_message("1".to_string());
    memory.add_user_message("2".to_string());
    memory.add_user_message("3".to_string());
    memory.add_user_message("4".to_string());

    assert_eq!(memory.len(), 3);
    assert_eq!(memory.get_messages()[0].content, "2");
    assert_eq!(memory.get_messages()[2].content, "4");
}

#[test]
fn test_system_message_always_first() {
    let mut memory = ConversationMemory::new();
    memory.add_user_message("Hello".to_string());
    memory.add_system_message("You are helpful".to_string());

    assert_eq!(memory.get_messages()[0].role, "system");
    assert_eq!(memory.get_messages()[1].role, "user");
}

#[test]
fn test_conversation_summary() {
    let mut memory = ConversationMemory::new();
    memory.add_user_message("Hi".to_string());
    memory.add_assistant_message("Hello".to_string());
    memory.add_user_message("How are you?".to_string());
    memory.add_assistant_message("Good".to_string());

    let summary = memory.get_conversation_summary();
    assert!(summary.contains("2 user messages"));
    assert!(summary.contains("2 assistant messages"));
}

#[test]
fn test_truncate_messages() {
    let mut memory = ConversationMemory::new();
    memory.add_system_message("System".to_string());
    memory.add_user_message("1".to_string());
    memory.add_user_message("2".to_string());
    memory.add_user_message("3".to_string());
    memory.add_user_message("4".to_string());

    memory.truncate_to_last_n_messages(2);

    assert_eq!(memory.len(), 3);
    assert_eq!(memory.get_messages()[0].role, "system");
    assert_eq!(memory.get_messages()[1].content, "3");
    assert_eq!(memory.get_messages()[2].content, "4");
}

#[test]
fn test_clear_memory() {
    let mut memory = ConversationMemory::new();
    memory.add_user_message("Hello".to_string());
    memory.add_assistant_message("Hi".to_string());

    memory.clear();

    assert!(memory.is_empty());
}

#[test]
fn test_assistant_with_tools() {
    let mut memory = ConversationMemory::new();
    let tool_calls = vec![ToolCall {
        id: "call_123".to_string(),
        tool_type: "function".to_string(),
        function: FunctionCall {
            name: "search".to_string(),
            arguments: r#"{"q":"test"}"#.to_string(),
        },
    }];

    memory.add_assistant_message_with_tools("Searching".to_string(), tool_calls);

    let msg = memory.last_assistant_message().unwrap();
    assert!(msg.tool_calls.is_some());
    assert_eq!(msg.tool_calls.as_ref().unwrap().len(), 1);
}

#[test]
fn memory_window_keeps_newest_messages() {
    let mut memory = ConversationMemory::new().with_max_messages(2);
    for i in 0..5 {
        memory.add_user_message(format!("m{}", i));
        assert!(memory.len() <= 2);
    }
    assert_eq!(memory.get_messages()[0].content, "m3");
    assert_eq!(memory.get_messages()[1].content, "m4");
    assert_eq!(memory.last_user_message().unwrap().content, "m4");
}

#[test]
fn memory_tool_result_text_and_summary() {
    let mut memory = ConversationMemory::new();
    memory.add_tool_result("c1".to_string(), "search".to_string(), "ok".to_string());
    assert_eq!(memory.get_messages()[0].content, "Tool result for search: ok");
    assert_eq!(
        memory.get_conversation_summary(),
        "Conversation: 0 user messages, 0 assistant messages, 1 tool calls"
    );
    assert!(memory.last_user_message().is_none());
    assert_eq!(memory.get_messages_for_api().len(), 1);
}

#[test]
fn memory_truncate_without_system_message() {
    let mut memory = ConversationMemory::new();
    memory.add_user_message("a".to_string());
    memory.add_assistant_message("b".to_string());
    memory.add_user_message("c".to_string());
    memory.truncate_to_last_n_messages(5);
    assert_eq!(memory.len(), 3);
    memory.truncate_to_last_n_messages(1);
    assert_eq!(memory.len(), 1);
    assert_eq!(memory.get_messages()[0].content, "c");
}
