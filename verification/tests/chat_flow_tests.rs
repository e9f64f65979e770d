use fae_agent::agent_chat::ChatEvent;
use fae_agent::chat_flow::{chat_step, ChatAction, ChatInput, ChatState};
use fae_agent::messages::{ChatMessage, FunctionCall, ToolCall};
use fae_agent::schema::ToolDefinition;
use fae_agent::stream::OllamaStreamResponse;
use fae_agent::tools::ToolResult;

fn reply(content: &str, calls: Option<Vec<ToolCall>>, done: bool) -> ChatInput {
    ChatInput::Reply(OllamaStreamResponse {
        model: "m".to_string(),
        created_at: String::new(),
        message: Some(ChatMessage {
            role: "assistant".to_string(),
            content: content.to_string(),
            tool_calls: calls,
        }),
        done,
        total_duration: None,
        eval_count: None,
    })
}

fn call(id: &str, name: &str, args: &str) -> ToolCall {
    ToolCall {
        id: id.to_string(),
        tool_type: "function".to_string(),
        function: FunctionCall { name: name.to_string(), arguments: args.to_string() },
    }
}

fn found(tools: Vec<ToolDefinition>) -> ChatInput {
    ChatInput::AgentFound {
        model: "llama3".to_string(),
        system_prompt: "sys".to_string(),
        tools,
    }
}

fn texts(events: &[ChatEvent]) -> Vec<String> {
    events
        .iter()
        .map(|e| match e {
            ChatEvent::Think(t) => format!("think:{}", t),
            ChatEvent::Chunk(t) => format!("chunk:{}", t),
            ChatEvent::ToolCall { id, name, arguments } => format!("call:{}:{}:{}", id, name, arguments),
            ChatEvent::ToolResult { id, name, result } => format!("result:{}:{}:{}", id, name, result),
            ChatEvent::Error(t) => format!("error:{}", t),
            ChatEvent::Done => "done".to_string(),
        })
        .collect()
}

#[test]
fn missing_agent_ends_with_error_then_done() {
    let s = ChatState::new("ghost".to_string(), "hi".to_string());
    let (s, events, action) = chat_step(s, ChatInput::AgentMissing);
    assert_eq!(
        texts(&events),
        vec![
            "think:Processing user request. ",
            "think:Analyzing the query for relevant actions. ",
            "think:Considering which tools would be most helpful. ",
            "think:Preparing a structured response. ",
            "chunk:Processing with default capabilities. Agent may not exist. ",
            "error:Agent 'ghost' not found",
            "done",
        ]
    );
    assert!(events[..3].iter().any(|e| matches!(e, ChatEvent::Think(_))));
    assert!(events[..5].iter().all(|e| !matches!(e, ChatEvent::Done)));
    assert!(action.is_none());
    assert!(s.is_finished());
    let (s, events, action) = chat_step(s, ChatInput::StreamEnded);
    assert!(events.is_empty() && action.is_none() && s.is_finished());
}

#[test]
fn chat_without_tools_streams_then_ends() {
    let s = ChatState::new("a1".to_string(), "hello".to_string());
    let (s, events, action) = chat_step(s, found(Vec::new()));
    assert_eq!(texts(&events), vec!["think:Connecting to llama3 model..."]);
    match action {
        Some(ChatAction::RunModel { model, messages, tools }) => {
            assert_eq!(model, "llama3");
            assert!(tools.is_none());
            assert_eq!(messages.len(), 2);
            assert_eq!(messages[0].role, "system");
            assert_eq!(messages[0].content, "sys");
            assert_eq!(messages[1].role, "user");
            assert_eq!(messages[1].content, "hello");
        }
        _ => panic!("expected the model to be asked"),
    }
    let (s, events, action) = chat_step(s, reply("Hi ", None, false));
    assert_eq!(texts(&events), vec!["chunk:Hi "]);
    assert!(action.is_none());
    let (s, events, action) = chat_step(s, reply("", None, false));
    assert!(events.is_empty() && action.is_none());
    let (s, events, action) = chat_step(s, reply("there", None, true));
    assert_eq!(texts(&events), vec!["chunk:there", "done"]);
    assert!(action.is_none());
    assert!(s.is_finished());
    assert_eq!(s.first_content(), "Hi there");
}

#[test]
fn model_failure_on_first_turn_ends_the_chat() {
    let s = ChatState::new("a1".to_string(), "hello".to_string());
    let (s, _, _) = chat_step(s, found(vec![ToolDefinition::builtin_tool("web_search")]));
    let (s, events, action) = chat_step(s, ChatInput::ModelFailed("refused".to_string()));
    assert_eq!(texts(&events), vec!["error:LLM error: refused", "done"]);
    assert!(action.is_none() && s.is_finished());
}

#[test]
fn stream_end_without_calls_ends_the_chat() {
    let s = ChatState::new("a1".to_string(), "hello".to_string());
    let (s, _, _) = chat_step(s, found(Vec::new()));
    let (s, events, action) = chat_step(s, ChatInput::StreamEnded);
    assert_eq!(texts(&events), vec!["done"]);
    assert!(action.is_none() && s.is_finished());
}

#[test]
fn tool_calls_run_in_order_then_results_go_back() {
    let s = ChatState::new("a1".to_string(), "list files".to_string());
    let (s, _, action) = chat_step(s, found(vec![ToolDefinition::builtin_tool("web_search")]));
    match action {
        Some(ChatAction::RunModel { tools, .. }) => assert_eq!(tools.map(|t| t.len()), Some(1)),
        _ => panic!("expected the model to be asked"),
    }
    let calls = vec![call("c1", "bash", "{\"command\":\"ls\"}"), call("c2", "read_file", "{}")];
    let (s, events, action) = chat_step(s, reply("Let me look.", Some(calls), true));
    assert_eq!(texts(&events), vec!["chunk:Let me look.", "call:c1:bash:{\"command\":\"ls\"}"]);
    match action {
        Some(ChatAction::RunTool(c)) => assert_eq!(c.id, "c1"),
        _ => panic!("expected the first tool to run"),
    }
    let (s, events, action) = chat_step(s, ChatInput::ToolFinished(ToolResult::success("a.txt".to_string())));
    assert_eq!(texts(&events), vec!["result:c1:bash:a.txt", "call:c2:read_file:{}"]);
    match action {
        Some(ChatAction::RunTool(c)) => assert_eq!(c.id, "c2"),
        _ => panic!("expected the second tool to run"),
    }
    let failed = ToolResult { success: false, output: String::new(), error: None };
    let (s, events, action) = chat_step(s, ChatInput::ToolFinished(failed));
    assert_eq!(
        texts(&events),
        vec!["result:c2:read_file:Error: Unknown error", "think:Processing tool results..."]
    );
    match action {
        Some(ChatAction::FollowUp(messages)) => {
            assert_eq!(messages.len(), 5);
            assert_eq!(messages[2].role, "assistant");
            assert_eq!(messages[2].content, "Let me look.");
            assert_eq!(messages[2].tool_calls.as_ref().map(|v| v.len()), Some(2));
            assert_eq!(messages[3].role, "tool");
            assert_eq!(messages[3].content, "a.txt");
            assert_eq!(messages[4].content, "Error: Unknown error");
        }
        _ => panic!("expected the results to go back to the model"),
    }
    let (s, events, action) = chat_step(s, reply("Done: a.txt", None, true));
    assert_eq!(texts(&events), vec!["chunk:Done: a.txt", "done"]);
    assert!(action.is_none() && s.is_finished());
    assert_eq!(s.last_content(), "Done: a.txt");
}

#[test]
fn follow_up_failure_reports_and_ends() {
    let s = ChatState::new("a1".to_string(), "go".to_string());
    let (s, _, _) = chat_step(s, found(Vec::new()));
    let (s, _, _) = chat_step(s, reply("", Some(vec![call("x", "bash", "{}")]), false));
    let (s, events, action) = chat_step(s, ChatInput::StreamEnded);
    assert_eq!(texts(&events), vec!["call:x:bash:{}"]);
    assert!(matches!(action, Some(ChatAction::RunTool(_))));
    let (s, _, action) = chat_step(s, ChatInput::ToolFinished(ToolResult::error("no".to_string())));
    assert!(matches!(action, Some(ChatAction::FollowUp(_))));
    let (s, events, action) = chat_step(s, ChatInput::ModelFailed("gone".to_string()));
    assert_eq!(texts(&events), vec!["error:Failed to process tool results: gone", "done"]);
    assert!(action.is_none() && s.is_finished());
}

#[test]
fn inputs_out_of_turn_are_ignored() {
    let s = ChatState::new("a1".to_string(), "go".to_string());
    let (s, events, action) = chat_step(s, ChatInput::ToolFinished(ToolResult::success("x".to_string())));
    assert!(events.is_empty() && action.is_none() && !s.is_finished());
    let (_, events, action) = chat_step(s, found(Vec::new()));
    assert_eq!(texts(&events), vec!["think:Connecting to llama3 model..."]);
    assert!(action.is_some());
}
