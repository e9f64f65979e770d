use fae_agent::messages::{ChatMessage, FunctionCall, ToolCall};
use fae_agent::stream::{
    classify_sse_line, json_line, convert_openai_chunk, convert_openai_chunk_now, LineBuffer,
    OllamaStreamResponse, OpenAIDelta, OpenAIFunctionCall, OpenAIStreamChoice, OpenAIStreamResponse,
    OpenAIToolCall, SseLine, ToolCallAccumulator,
};

#[test]
fn line_buffer_cuts_lines_and_keeps_rest() {
    let mut b = LineBuffer::new();
    b.push_text("  first line \nsecond");
    assert_eq!(b.next_line(), Some("first line".to_string()));
    assert_eq!(b.next_line(), None);
    b.push_bytes(b" part\r\n\nthird\n");
    assert_eq!(b.next_line(), Some("second part".to_string()));
    assert_eq!(b.next_line(), Some("".to_string()));
    assert_eq!(b.next_line(), Some("third".to_string()));
    assert_eq!(b.next_line(), None);
}

#[test]
fn line_buffer_decodes_invalid_bytes_lossily() {
    let mut b = LineBuffer::new();
    b.push_bytes(&[0x66, 0xff, 0x6f, b'\n']);
    assert_eq!(b.next_line(), Some("f\u{FFFD}o".to_string()));
}

#[test]
fn sse_lines_are_told_apart() {
    assert!(matches!(classify_sse_line("data: [DONE]"), SseLine::Done));
    match classify_sse_line("data: {\"a\":1}") {
        SseLine::Data(d) => assert_eq!(d, "{\"a\":1}"),
        _ => panic!("a data line"),
    }
    assert!(matches!(classify_sse_line(": keep-alive"), SseLine::Ignored));
    assert!(matches!(classify_sse_line("data:[DONE]"), SseLine::Ignored));
    match classify_sse_line("data: ") {
        SseLine::Data(d) => assert_eq!(d, ""),
        _ => panic!("an empty data line"),
    }
    assert_eq!(json_line(""), None);
    assert_eq!(json_line("{}"), Some("{}"));
}

fn fragment(index: i32, id: Option<&str>, name: Option<&str>, args: Option<&str>) -> OpenAIToolCall {
    OpenAIToolCall {
        index,
        id: id.map(|s| s.to_string()),
        function: Some(OpenAIFunctionCall {
            name: name.map(|s| s.to_string()),
            arguments: args.map(|s| s.to_string()),
        }),
    }
}

fn choice(content: Option<&str>, calls: Option<Vec<OpenAIToolCall>>, finish: Option<&str>) -> OpenAIStreamChoice {
    OpenAIStreamChoice {
        delta: OpenAIDelta {
            content: content.map(|s| s.to_string()),
            tool_calls: calls,
        },
        finish_reason: finish.map(|s| s.to_string()),
    }
}

#[test]
fn accumulator_concatenates_fragments_by_index() {
    let mut acc = ToolCallAccumulator::new();
    assert!(acc.is_empty());
    acc.absorb(&fragment(0, Some("call_1"), Some("search"), Some("{\"q\":")));
    acc.absorb(&fragment(1, Some("call_2"), Some("read_file"), Some("{}")));
    acc.absorb(&fragment(0, None, None, Some("\"rust\"}")));
    let calls = acc.tool_calls();
    assert_eq!(calls.len(), 2);
    assert_eq!(calls[0].id, "call_1");
    assert_eq!(calls[0].tool_type, "function");
    assert_eq!(calls[0].function.name, "search");
    assert_eq!(calls[0].function.arguments, "{\"q\":\"rust\"}");
    assert_eq!(calls[1].function.name, "read_file");
}

#[test]
fn accumulator_new_call_without_id_or_function() {
    let mut acc = ToolCallAccumulator::new();
    acc.absorb(&OpenAIToolCall { index: 3, id: None, function: None });
    let calls = acc.tool_calls();
    assert_eq!(calls.len(), 1);
    assert_eq!(calls[0].id, "");
    assert_eq!(calls[0].function.name, "");
    assert_eq!(calls[0].function.arguments, "");
}

#[test]
fn openai_chunk_conversion() {
    let mut acc = ToolCallAccumulator::new();
    let first = OpenAIStreamResponse {
        choices: vec![choice(Some("Hel"), Some(vec![fragment(0, Some("c1"), Some("bash"), Some("{\"command\""))]), None)],
    };
    let out = convert_openai_chunk(&mut acc, "gpt-4", "2024-01-01T00:00:00+00:00", &first);
    assert_eq!(out.len(), 1);
    assert_eq!(out[0].model, "gpt-4");
    assert_eq!(out[0].created_at, "2024-01-01T00:00:00+00:00");
    assert!(!out[0].done);
    let msg = out[0].message.as_ref().unwrap();
    assert_eq!(msg.role, "assistant");
    assert_eq!(msg.content, "Hel");
    assert!(msg.tool_calls.is_none());

    let last = OpenAIStreamResponse {
        choices: vec![choice(None, Some(vec![fragment(0, None, None, Some(":\"ls\"}"))]), Some("tool_calls"))],
    };
    let out = convert_openai_chunk(&mut acc, "gpt-4", "t", &last);
    assert!(out[0].done);
    let msg = out[0].message.as_ref().unwrap();
    assert_eq!(msg.content, "");
    let calls = msg.tool_calls.as_ref().unwrap();
    assert_eq!(calls.len(), 1);
    assert_eq!(calls[0].function.arguments, "{\"command\":\"ls\"}");
    assert!(out[0].total_duration.is_none());
    assert!(out[0].eval_count.is_none());
}

#[test]
fn openai_finish_without_calls_has_no_tool_calls() {
    let mut acc = ToolCallAccumulator::new();
    let chunk = OpenAIStreamResponse {
        choices: vec![choice(Some("a"), None, None), choice(Some("b"), None, Some("stop"))],
    };
    let out = convert_openai_chunk_now(&mut acc, "m", &chunk).expect("clock");
    assert_eq!(out.len(), 2);
    assert!(out[0].created_at.starts_with("20"));
    assert!(!out[0].done);
    assert!(out[1].done);
    assert!(out[1].message.as_ref().unwrap().tool_calls.is_none());
    assert_eq!(out[1].created_at, out[0].created_at);
}

#[test]
fn ollama_response_can_be_built() {
    let r = OllamaStreamResponse {
        model: "llama2".to_string(),
        created_at: "2024-01-01T00:00:00Z".to_string(),
        message: Some(ChatMessage {
            role: "assistant".to_string(),
            content: "Hello back".to_string(),
            tool_calls: Some(vec![ToolCall {
                id: "x".to_string(),
                tool_type: "function".to_string(),
                function: FunctionCall { name: "n".to_string(), arguments: "{}".to_string() },
            }]),
        }),
        done: false,
        total_duration: Some(1000),
        eval_count: Some(50),
    };
    assert_eq!(r.message.unwrap().content, "Hello back");
}
