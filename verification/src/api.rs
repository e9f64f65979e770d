//! What the HTTP API receives and answers, and the answers its handlers decide on.
use vstd::prelude::*;
use vstd::string::*;
use crate::agent_chat::ChatEvent;
use crate::providers::ProviderConfig;
use crate::folders::AllowedFolderRequest;
use crate::skills::{Skill, ApiError};
use crate::text::{owned, concat2};

verus! {

broadcast use vstd::string::group_string_axioms;

/// The answer of the status endpoint.
pub struct StatusResponse {
    pub status: String,
    pub version: String,
    pub timestamp: i64,
}

impl StatusResponse {
    /// The server is up: status `ok`, with its version and the time of the answer.
    pub fn ok(version: String, timestamp: i64) -> (r: Self)
        ensures
            r.status@ == "ok"@,
            r.version == version,
            r.timestamp == timestamp,
    {
        StatusResponse { status: owned("ok"), version, timestamp }
    }
}

/// A chat request naming an agent.
pub struct ChatRequest {
    pub agent_id: String,
    pub message: String,
}

/// A chat request as the agent page sends it.
pub struct AgentChatRequest {
    pub agent_id: String,
    pub message: String,
}

/// A chat request payload.
pub struct ChatPayload {
    pub agent_id: String,
    pub message: String,
}

/// A chat reply that was not streamed.
pub struct ChatCompletion {
    pub id: String,
    pub message: String,
    pub model: String,
    pub timestamp: i64,
}

/// The reply of the simple chat endpoint from `mock-model`, with the id and time it is
/// given: `Processed chat request for agent {agent_id}: {message}`.
pub fn processed_completion(agent_id: &str, message: &str, id: String, timestamp: i64) -> (r: ChatCompletion)
    ensures
        r.id == id,
        r.message@ == "Processed chat request for agent "@ + agent_id@ + ": "@ + message@,
        r.model@ == "mock-model"@,
        r.timestamp == timestamp,
{
    let mut text = concat2("Processed chat request for agent ", agent_id);
    text.append(": ");
    text.append(message);
    ChatCompletion {
        id,
        message: text,
        model: owned("mock-model"),
        timestamp,
    }
}

/// The events of the echo stream: the message echoed back, then the end.
pub fn echo_events(message: &str) -> (r: Vec<ChatEvent>)
    ensures
        r@.len() == 2,
        r@[0] matches ChatEvent::Chunk(t) && t@ == "Echo: "@ + message@,
        r@[1] is Done,
{
    let mut r: Vec<ChatEvent> = Vec::new();
    r.push(ChatEvent::Chunk(concat2("Echo: ", message)));
    r.push(ChatEvent::Done);
    r
}

/// The answer of the web socket to a text message.
pub fn socket_echo(text: &str) -> (r: String)
    ensures
        r@ == "Echo via WS: "@ + text@,
{
    concat2("Echo via WS: ", text)
}

/// A request to create an agent.
pub struct CreateAgentRequest {
    pub name: String,
    pub provider: String,
    pub provider_config_id: Option<String>,
    pub model: String,
    pub system_prompt: Option<String>,
    pub avatar_url: Option<String>,
    pub skills: Vec<String>,
}

/// A request to change an agent.
pub struct UpdateAgentRequest {
    pub name: String,
    pub provider: String,
    pub provider_config_id: Option<String>,
    pub model: String,
    pub system_prompt: Option<String>,
    pub avatar_url: Option<String>,
    pub skills: Vec<String>,
}

/// The answer of the agent endpoints.
pub struct AgentApiResponse<T> {
    pub ok: bool,
    pub data: Option<T>,
}

impl<T> AgentApiResponse<T> {
    /// A successful answer carrying `data`.
    pub fn success(data: T) -> (r: Self)
        ensures
            r.ok,
            r.data == Some(data),
    {
        AgentApiResponse { ok: true, data: Some(data) }
    }
}

/// The answer of the settings endpoints.
pub struct ApiResponse<T> {
    pub ok: bool,
    pub data: Option<T>,
    pub error: Option<ApiError>,
}

impl<T> ApiResponse<T> {
    /// A successful answer carrying `data`.
    pub fn success(data: T) -> (r: Self)
        ensures
            r.ok,
            r.data == Some(data),
            r.error is None,
    {
        ApiResponse { ok: true, data: Some(data), error: None }
    }
}

/// The answer of the skill endpoints.
pub struct SkillApiResponse<T> {
    pub ok: bool,
    pub data: Option<T>,
    pub error: Option<ApiError>,
}

impl<T> SkillApiResponse<T> {
    /// A successful answer carrying `data`.
    pub fn success(data: T) -> (r: Self)
        ensures
            r.ok,
            r.data == Some(data),
            r.error is None,
    {
        SkillApiResponse { ok: true, data: Some(data), error: None }
    }
}

/// The answer to a change of a skill: the skill as stored afterwards, or `NOT_FOUND` when
/// there is none with that id.
pub fn skill_update_response(updated: Option<Skill>) -> (r: SkillApiResponse<Skill>)
    ensures
        match updated {
            Some(s) => r.ok && r.data == Some(s) && r.error is None,
            None => !r.ok && r.data is None && (r.error matches Some(e) && e.code@ == "NOT_FOUND"@
                && e.message@ == "Skill not found"@),
        },
{
    match updated {
        Some(s) => SkillApiResponse::success(s),
        None => SkillApiResponse {
            ok: false,
            data: None,
            error: Some(ApiError { code: owned("NOT_FOUND"), message: owned("Skill not found") }),
        },
    }
}

/// The value a skill's `enabled` flag is stored as: 1 or 0.
pub fn enabled_flag(enabled: bool) -> (r: i32)
    ensures
        r == if enabled {
            1i32
        } else {
            0i32
        },
{
    if enabled {
        1
    } else {
        0
    }
}

/// A request to change a skill.
pub struct UpdateSkillPayload {
    pub enabled: bool,
}

/// A request to replace the allowed folders.
pub struct UpdateFoldersPayload {
    pub folder_configs: Vec<AllowedFolderRequest>,
}

/// A request to replace the provider configurations.
pub struct UpdateProvidersPayload {
    pub provider_configs: Vec<ProviderConfig>,
}

/// The Ollama endpoint setting.
pub struct OllamaSettings {
    pub base_url: String,
}

/// A request to change the Ollama endpoint.
pub struct UpdateOllamaPayload {
    pub base_url: String,
}

/// The Ollama endpoint: the stored one, or the local default when none is stored.
pub fn ollama_settings(stored: Option<String>) -> (r: OllamaSettings)
    ensures
        r.base_url@ == match stored {
            Some(u) => u@,
            None => "http://127.0.0.1:11434"@,
        },
{
    match stored {
        Some(u) => OllamaSettings { base_url: u },
        None => OllamaSettings { base_url: owned("http://127.0.0.1:11434") },
    }
}

/// A login request; the startup token is not checked yet.
pub struct LoginRequest {
    pub token: Option<String>,
}

/// The session a login opens.
pub struct LoginData {
    pub session_token: String,
}

/// An error of the login endpoint.
pub struct ErrorResponse {
    pub code: String,
    pub message: String,
}

/// The answer of the login endpoints.
pub struct LoginResponse {
    pub ok: bool,
    pub data: Option<LoginData>,
    pub error: Option<ErrorResponse>,
}

impl LoginResponse {
    /// A successful login with the session's token.
    pub fn logged_in(session_token: String) -> (r: Self)
        ensures
            r.ok,
            r.data matches Some(d) && d.session_token == session_token,
            r.error is None,
    {
        LoginResponse { ok: true, data: Some(LoginData { session_token }), error: None }
    }
}

/// The chat service of the agent page; it holds nothing yet.
pub struct AIChatService {}

impl AIChatService {
    /// The service.
    pub fn new() -> (r: Self) {
        AIChatService {  }
    }
}

} // verus!
