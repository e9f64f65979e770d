//! The records of the LLM session log: what each kind of event carries, and where a
//! session's log file goes. Writing the file is left to the caller.
use vstd::prelude::*;
use vstd::string::*;
use crate::paths::{join_path, join_paths};
use crate::text::{owned, concat2};

verus! {

broadcast use vstd::string::group_string_axioms;

/// The kinds of events a session log records.
pub enum LLMEventType {
    SessionStart,
    SessionEnd,
    SystemPrompt,
    UserMessage,
    AssistantMessage,
    Thinking,
    ToolCall,
    ToolResult,
    Error,
    LLMRequest,
    LLMResponse,
}

/// A tool call as logged; the arguments are the raw text the model sent.
pub struct ToolCallData {
    pub tool_call_id: String,
    pub tool_name: String,
    pub arguments: String,
}

/// A tool result as logged.
pub struct ToolResultData {
    pub tool_call_id: String,
    pub tool_name: String,
    pub result: String,
}

/// A request to a model as logged.
pub struct LLMRequestData {
    pub provider: String,
    pub model: String,
    pub base_url: String,
    pub messages_count: usize,
    pub tools_count: Option<usize>,
}

/// A model's answer as logged.
pub struct LLMResponseData {
    pub content: String,
    pub tool_calls: Vec<ToolCallData>,
    pub done: bool,
}

/// What a logged event carries.
pub enum LLMEventData {
    Text { content: String },
    SystemPrompt { prompt: String },
    ToolCall(ToolCallData),
    ToolResult(ToolResultData),
    LLMRequest(LLMRequestData),
    LLMResponse(LLMResponseData),
    Error { message: String },
    Empty,
}

/// One event of a session log.
pub struct LogEvent {
    pub event_type: LLMEventType,
    pub data: LLMEventData,
}

impl LogEvent {
    /// The session began.
    pub fn session_start() -> (r: Self)
        ensures
            r.event_type is SessionStart,
            r.data is Empty,
    {
        LogEvent { event_type: LLMEventType::SessionStart, data: LLMEventData::Empty }
    }

    /// The session ended.
    pub fn session_end() -> (r: Self)
        ensures
            r.event_type is SessionEnd,
            r.data is Empty,
    {
        LogEvent { event_type: LLMEventType::SessionEnd, data: LLMEventData::Empty }
    }

    /// The system prompt the model was given.
    pub fn system_prompt(prompt: &str) -> (r: Self)
        ensures
            r.event_type is SystemPrompt,
            r.data matches LLMEventData::SystemPrompt { prompt: p } && p@ == prompt@,
    {
        LogEvent {
            event_type: LLMEventType::SystemPrompt,
            data: LLMEventData::SystemPrompt { prompt: owned(prompt) },
        }
    }

    /// The user's message.
    pub fn user_message(content: &str) -> (r: Self)
        ensures
            r.event_type is UserMessage,
            r.data matches LLMEventData::Text { content: c } && c@ == content@,
    {
        LogEvent {
            event_type: LLMEventType::UserMessage,
            data: LLMEventData::Text { content: owned(content) },
        }
    }

    /// The assistant's message.
    pub fn assistant_message(content: &str) -> (r: Self)
        ensures
            r.event_type is AssistantMessage,
            r.data matches LLMEventData::Text { content: c } && c@ == content@,
    {
        LogEvent {
            event_type: LLMEventType::AssistantMessage,
            data: LLMEventData::Text { content: owned(content) },
        }
    }

    /// A note on what the agent is doing.
    pub fn thinking(content: &str) -> (r: Self)
        ensures
            r.event_type is Thinking,
            r.data matches LLMEventData::Text { content: c } && c@ == content@,
    {
        LogEvent {
            event_type: LLMEventType::Thinking,
            data: LLMEventData::Text { content: owned(content) },
        }
    }

    /// A tool call the model asked for.
    pub fn tool_call(tool_call_id: &str, tool_name: &str, arguments: &str) -> (r: Self)
        ensures
            r.event_type is ToolCall,
            r.data matches LLMEventData::ToolCall(d) && d.tool_call_id@ == tool_call_id@
                && d.tool_name@ == tool_name@ && d.arguments@ == arguments@,
    {
        LogEvent {
            event_type: LLMEventType::ToolCall,
            data: LLMEventData::ToolCall(
                ToolCallData {
                    tool_call_id: owned(tool_call_id),
                    tool_name: owned(tool_name),
                    arguments: owned(arguments),
                },
            ),
        }
    }

    /// A tool's result.
    pub fn tool_result(tool_call_id: &str, tool_name: &str, result: &str) -> (r: Self)
        ensures
            r.event_type is ToolResult,
            r.data matches LLMEventData::ToolResult(d) && d.tool_call_id@ == tool_call_id@
                && d.tool_name@ == tool_name@ && d.result@ == result@,
    {
        LogEvent {
            event_type: LLMEventType::ToolResult,
            data: LLMEventData::ToolResult(
                ToolResultData {
                    tool_call_id: owned(tool_call_id),
                    tool_name: owned(tool_name),
                    result: owned(result),
                },
            ),
        }
    }

    /// A request sent to a model.
    pub fn llm_request(
        provider: &str,
        model: &str,
        base_url: &str,
        messages_count: usize,
        tools_count: Option<usize>,
    ) -> (r: Self)
        ensures
            r.event_type is LLMRequest,
            r.data matches LLMEventData::LLMRequest(d) && d.provider@ == provider@ && d.model@
                == model@ && d.base_url@ == base_url@ && d.messages_count == messages_count
                && d.tools_count == tools_count,
    {
        LogEvent {
            event_type: LLMEventType::LLMRequest,
            data: LLMEventData::LLMRequest(
                LLMRequestData {
                    provider: owned(provider),
                    model: owned(model),
                    base_url: owned(base_url),
                    messages_count,
                    tools_count,
                },
            ),
        }
    }

    /// A model's answer.
    pub fn llm_response(content: &str, tool_calls: Vec<ToolCallData>, done: bool) -> (r: Self)
        ensures
            r.event_type is LLMResponse,
            r.data matches LLMEventData::LLMResponse(d) && d.content@ == content@ && d.tool_calls
                == tool_calls && d.done == done,
    {
        LogEvent {
            event_type: LLMEventType::LLMResponse,
            data: LLMEventData::LLMResponse(
                LLMResponseData { content: owned(content), tool_calls, done },
            ),
        }
    }

    /// A failure.
    pub fn error(message: &str) -> (r: Self)
        ensures
            r.event_type is Error,
            r.data matches LLMEventData::Error { message: m } && m@ == message@,
    {
        LogEvent {
            event_type: LLMEventType::Error,
            data: LLMEventData::Error { message: owned(message) },
        }
    }
}

/// Where a session's log goes: `{session_id}.jsonl` in the log directory.
pub fn log_path(log_dir: &str, session_id: &str) -> (r: String)
    ensures
        r@ == join_path(log_dir@, session_id@ + ".jsonl"@),
{
    let file = concat2(session_id, ".jsonl");
    join_paths(log_dir, file.as_str())
}

} // verus!
