use fae_agent::agent_chat::{
    agent_system_prompt, chat_target, follow_up_messages, initial_messages, skill_definitions,
    skills_to_register, tool_result_text, ChatEvent, TurnCollector,
};
use fae_agent::maps::StringMap;
use fae_agent::messages::{ChatMessage, FunctionCall, ToolCall};
use fae_agent::providers::ProviderConfig;
use fae_agent::skills::Skill;
use fae_agent::stream::OllamaStreamResponse;
use fae_agent::tools::ToolResult;

fn config(model_id: &str) -> ProviderConfig {
    ProviderConfig {
        id: "cfg".to_string(),
        name: "Cfg".to_string(),
        provider_type: "openai".to_string(),
        api_key: "key".to_string(),
        base_url: "https://api.example.com/v1".to_string(),
        model_id: model_id.to_string(),
        enabled: true,
    }
}

#[test]
fn chat_target_prefers_configured_model() {
    let c = config("gpt-4o");
    let t = chat_target(Some(&c), "llama2");
    assert_eq!(t.base_url, "https://api.example.com/v1");
    assert_eq!(t.model, "gpt-4o");
    assert_eq!(t.provider_type, "openai");
    assert_eq!(t.api_key, "key");
    let empty = config("");
    assert_eq!(chat_target(Some(&empty), "llama2").model, "llama2");
    let d = chat_target(None, "llama2");
    assert_eq!(d.base_url, "http://127.0.0.1:11434");
    assert_eq!(d.model, "llama2");
    assert_eq!(d.provider_type, "ollama");
    assert_eq!(d.api_key, "");
}

#[test]
fn agent_prompt_puts_context_first() {
    let p = agent_system_prompt("## System Context\n\nX\n", &[]);
    assert_eq!(p, "## System Context\n\nX\n\n\nYou are a helpful assistant.");
    let q = agent_system_prompt("S", &["search".to_string()]);
    assert!(q.starts_with("S\n\nYou are a helpful assistant with access to tools."));
}

#[test]
fn skills_registered_in_agent_order() {
    let defs = skill_definitions(&[
        Skill { id: "search".to_string(), name: "Search the web".to_string(), enabled: 1 },
        Skill { id: "weather".to_string(), name: "Weather".to_string(), enabled: 0 },
        Skill { id: "search".to_string(), name: "Search again".to_string(), enabled: 1 },
    ]);
    assert_eq!(defs.get("search"), Some(&"Search again".to_string()));
    let regs = skills_to_register(
        &["weather".to_string(), "unknown".to_string(), "search".to_string()],
        &defs,
        "/skills",
    );
    assert_eq!(regs.len(), 2);
    assert_eq!(regs[0].id, "weather");
    assert_eq!(regs[0].path, "/skills/weather");
    assert_eq!(regs[1].description, "Search again");
}

#[test]
fn opening_messages() {
    let m = initial_messages("sys".to_string(), "hi".to_string());
    assert_eq!(m.len(), 2);
    assert_eq!(m[0].role, "system");
    assert_eq!(m[0].content, "sys");
    assert_eq!(m[1].role, "user");
    assert_eq!(m[1].content, "hi");
}

fn call(id: &str, name: &str) -> ToolCall {
    ToolCall {
        id: id.to_string(),
        tool_type: "function".to_string(),
        function: FunctionCall { name: name.to_string(), arguments: "{}".to_string() },
    }
}

fn chunk(content: &str, calls: Option<Vec<ToolCall>>, done: bool) -> OllamaStreamResponse {
    OllamaStreamResponse {
        model: "m".to_string(),
        created_at: "t".to_string(),
        message: Some(ChatMessage { role: "assistant".to_string(), content: content.to_string(), tool_calls: calls }),
        done,
        total_duration: None,
        eval_count: None,
    }
}

#[test]
fn turn_collector_shows_what_it_keeps() {
    let mut turn = TurnCollector::new();
    assert_eq!(turn.absorb(&chunk("Hel", None, false)), (Some("Hel".to_string()), false));
    assert_eq!(turn.absorb(&chunk("", Some(vec![call("c1", "bash")]), false)), (None, false));
    assert_eq!(turn.absorb(&chunk("lo", Some(vec![call("c2", "read_file")]), true)), (Some("lo".to_string()), true));
    let empty = OllamaStreamResponse {
        model: "m".to_string(),
        created_at: "t".to_string(),
        message: None,
        done: true,
        total_duration: None,
        eval_count: None,
    };
    assert_eq!(turn.absorb(&empty), (None, true));
    assert_eq!(turn.content(), "Hello");
    assert_eq!(turn.tool_calls().len(), 2);
    assert_eq!(turn.tool_calls()[1].id, "c2");
}

#[test]
fn tool_results_are_reported() {
    assert_eq!(tool_result_text(&ToolResult::success("out".to_string())), "out");
    assert_eq!(tool_result_text(&ToolResult::error("bad".to_string())), "Error: bad");
    let odd = ToolResult { success: false, output: String::new(), error: None };
    assert_eq!(tool_result_text(&odd), "Error: Unknown error");
}

#[test]
fn follow_up_carries_each_result() {
    let opening = initial_messages("sys".to_string(), "hi".to_string());
    let calls = vec![call("c1", "bash"), call("c2", "read_file")];
    let mut results = StringMap::new();
    results.insert("c1".to_string(), "listing".to_string());
    let m = follow_up_messages(&opening, "Let me look", &calls, &results);
    assert_eq!(m.len(), 5);
    assert_eq!(m[2].role, "assistant");
    assert_eq!(m[2].content, "Let me look");
    assert_eq!(m[2].tool_calls.as_ref().unwrap().len(), 2);
    assert_eq!(m[3].role, "tool");
    assert_eq!(m[3].content, "listing");
    assert_eq!(m[4].content, "No result");
}

#[test]
fn chat_events_texts() {
    match ChatEvent::connecting("llama2") {
        ChatEvent::Think(t) => assert_eq!(t, "Connecting to llama2 model..."),
        _ => panic!(),
    }
    match ChatEvent::agent_not_found("a1") {
        ChatEvent::Error(t) => assert_eq!(t, "Agent 'a1' not found"),
        _ => panic!(),
    }
    match ChatEvent::llm_error("refused") {
        ChatEvent::Error(t) => assert_eq!(t, "LLM error: refused"),
        _ => panic!(),
    }
    match ChatEvent::tool_results_failed("down") {
        ChatEvent::Error(t) => assert_eq!(t, "Failed to process tool results: down"),
        _ => panic!(),
    }
    match ChatEvent::processing_results() {
        ChatEvent::Think(t) => assert_eq!(t, "Processing tool results..."),
        _ => panic!(),
    }
    match ChatEvent::tool_result(&call("c9", "bash"), &ToolResult::error("x".to_string())) {
        ChatEvent::ToolResult { id, name, result } => {
            assert_eq!(id, "c9");
            assert_eq!(name, "bash");
            assert_eq!(result, "Error: x");
        }
        _ => panic!(),
    }
    match ChatEvent::tool_call(&call("c9", "bash")) {
        ChatEvent::ToolCall { id, name, arguments } => {
            assert_eq!(id, "c9");
            assert_eq!(name, "bash");
            assert_eq!(arguments, "{}");
        }
        _ => panic!(),
    }
}
