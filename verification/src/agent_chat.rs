//! The decisions of a streamed agent chat: which model and endpoint to talk to, what the
//! model is told, what the user is shown as the reply streams in, and how tool results go
//! back to the model. Talking to the database, the model and the client is left to the
//! caller.
use vstd::prelude::*;
use vstd::string::*;
use crate::maps::StringMap;
use crate::messages::{ChatMessage, ToolCall, MessageView, ToolCallView, calls_view, messages_view, clone_calls, clone_messages};
use crate::paths::{join_path, join_paths};
use crate::prompts::{build_system_prompt, plain_prompt, tools_prompt};
use crate::providers::ProviderConfig;
use crate::skills::Skill;
use crate::stream::OllamaStreamResponse;
use crate::text::{views, owned, concat2, concat3};
use crate::tools::ToolResult;

verus! {

broadcast use vstd::string::group_string_axioms;

/// Where a chat goes and as whom.
pub struct ChatTarget {
    pub base_url: String,
    pub model: String,
    pub provider_type: String,
    pub api_key: String,
}

/// The endpoint used when an agent names no provider configuration.
pub open spec fn default_base_url() -> Seq<char> {
    "http://127.0.0.1:11434"@
}

/// Where an agent's chat goes: the configuration's endpoint, type and key, with its model
/// unless that is empty, in which case the agent's model; without a configuration, a
/// local Ollama server and the agent's model.
pub fn chat_target(config: Option<&ProviderConfig>, agent_model: &str) -> (r: ChatTarget)
    ensures
        match config {
            Some(c) => r.base_url@ == c.base_url@ && r.model@ == (if c.model_id@.len() == 0 {
                agent_model@
            } else {
                c.model_id@
            }) && r.provider_type@ == c.provider_type@ && r.api_key@ == c.api_key@,
            None => r.base_url@ == default_base_url() && r.model@ == agent_model@
                && r.provider_type@ == "ollama"@ && r.api_key@.len() == 0,
        },
{
    match config {
        Some(c) => {
            let model = if c.model_id.as_str().is_empty() {
                owned(agent_model)
            } else {
                c.model_id.clone()
            };
            ChatTarget {
                base_url: c.base_url.clone(),
                model,
                provider_type: c.provider_type.clone(),
                api_key: c.api_key.clone(),
            }
        },
        None => ChatTarget {
            base_url: owned("http://127.0.0.1:11434"),
            model: owned(agent_model),
            provider_type: owned("ollama"),
            api_key: String::new(),
        },
    }
}

/// The system prompt of an agent chat: the system-context section, a blank line, then the
/// prompt for the agent's skills.
pub fn agent_system_prompt(context_section: &str, skills: &[String]) -> (r: String)
    ensures
        r@ == context_section@ + "\n\n"@ + (if skills@.len() == 0 {
            plain_prompt()
        } else {
            tools_prompt(views(skills@))
        }),
{
    let prompt = build_system_prompt(skills);
    concat3(context_section, "\n\n", prompt.as_str())
}

/// The descriptions of the stored skills, by id; a later skill with the same id wins.
pub open spec fn skill_map(skills: Seq<Skill>) -> Map<Seq<char>, Seq<char>>
    decreases skills.len(),
{
    if skills.len() == 0 {
        Map::empty()
    } else {
        skill_map(skills.drop_last()).insert(skills.last().id@, skills.last().name@)
    }
}

/// The descriptions of the stored skills, by id.
pub fn skill_definitions(skills: &[Skill]) -> (r: StringMap)
    ensures
        r@ == skill_map(skills@),
{
    let mut r = StringMap::new();
    let mut i: usize = 0;
    while i < skills.len()
        invariant
            i <= skills@.len(),
            r@ == skill_map(skills@.take(i as int)),
        decreases skills.len() - i,
    {
        assert(skills@.take(i + 1).drop_last() == skills@.take(i as int));
        assert(skills@.take(i + 1).last() == skills@[i as int]);
        r.insert(skills[i].id.clone(), skills[i].name.clone());
        i = i + 1;
    }
    assert(skills@.take(skills@.len() as int) == skills@);
    r
}

/// A skill to register as a tool: its id, description and directory.
pub struct SkillRegistration {
    pub id: String,
    pub description: String,
    pub path: String,
}

/// The skills of an agent that are known, in the agent's order, each with its description
/// and its directory below `skills_dir`.
pub open spec fn registrations(
    agent_skills: Seq<Seq<char>>,
    defs: Map<Seq<char>, Seq<char>>,
    skills_dir: Seq<char>,
) -> Seq<(Seq<char>, Seq<char>, Seq<char>)>
    decreases agent_skills.len(),
{
    if agent_skills.len() == 0 {
        Seq::empty()
    } else {
        let before = registrations(agent_skills.drop_last(), defs, skills_dir);
        let id = agent_skills.last();
        if defs.contains_key(id) {
            before.push((id, defs[id], join_path(skills_dir, id)))
        } else {
            before
        }
    }
}

/// The plain content of skill registrations.
pub open spec fn registrations_view(v: Seq<SkillRegistration>) -> Seq<(Seq<char>, Seq<char>, Seq<char>)> {
    v.map_values(|s: SkillRegistration| (s.id@, s.description@, s.path@))
}

/// The skills of an agent to register as tools: those with a known description.
pub fn skills_to_register(agent_skills: &[String], defs: &StringMap, skills_dir: &str) -> (r: Vec<SkillRegistration>)
    ensures
        registrations_view(r@) == registrations(views(agent_skills@), defs@, skills_dir@),
{
    let ghost ids = views(agent_skills@);
    let mut r: Vec<SkillRegistration> = Vec::new();
    let mut i: usize = 0;
    while i < agent_skills.len()
        invariant
            i <= agent_skills@.len(),
            ids == views(agent_skills@),
            registrations_view(r@) == registrations(ids.take(i as int), defs@, skills_dir@),
        decreases agent_skills.len() - i,
    {
        assert(ids.take(i + 1).drop_last() == ids.take(i as int));
        assert(ids.take(i + 1).last() == agent_skills@[i as int]@);
        let id = &agent_skills[i];
        match defs.get(id.as_str()) {
            Some(d) => {
                let reg = SkillRegistration {
                    id: id.clone(),
                    description: d.clone(),
                    path: join_paths(skills_dir, id.as_str()),
                };
                let ghost before = r@;
                r.push(reg);
                assert(registrations_view(r@) =~= registrations_view(before).push(
                    (reg.id@, reg.description@, reg.path@),
                ));
            },
            None => {},
        }
        i = i + 1;
    }
    assert(ids.take(ids.len() as int) == ids);
    r
}

/// A message with a role and content and no tool calls.
pub open spec fn plain_message(role: Seq<char>, content: Seq<char>) -> MessageView {
    MessageView { role, content, tool_calls: None }
}

/// The opening of a chat: the system prompt, then the user's message.
pub fn initial_messages(system_prompt: String, message: String) -> (r: Vec<ChatMessage>)
    ensures
        messages_view(r@) == seq![
            plain_message("system"@, system_prompt@),
            plain_message("user"@, message@),
        ],
{
    let mut r: Vec<ChatMessage> = Vec::new();
    r.push(ChatMessage { role: owned("system"), content: system_prompt, tool_calls: None });
    r.push(ChatMessage { role: owned("user"), content: message, tool_calls: None });
    assert(messages_view(r@) =~= seq![
        plain_message("system"@, system_prompt@),
        plain_message("user"@, message@),
    ]);
    r
}

/// What one streamed chunk shows the user: its message's text, when there is some.
pub open spec fn shown_text(resp: OllamaStreamResponse) -> Option<Seq<char>> {
    match resp.message {
        Some(m) => if m.content@.len() > 0 {
            Some(m.content@)
        } else {
            None
        },
        None => None,
    }
}

/// The tool calls one streamed chunk asks for.
pub open spec fn asked_calls(resp: OllamaStreamResponse) -> Seq<ToolCallView> {
    match resp.message {
        Some(m) => match m.tool_calls {
            Some(v) => calls_view(v@),
            None => Seq::empty(),
        },
        None => Seq::empty(),
    }
}

/// Appends copies of tool calls.
fn append_calls(dst: &mut Vec<ToolCall>, src: &Vec<ToolCall>)
    ensures
        calls_view(final(dst)@) == calls_view(old(dst)@) + calls_view(src@),
{
    let ghost before = calls_view(dst@);
    let mut i: usize = 0;
    while i < src.len()
        invariant
            i <= src@.len(),
            calls_view(dst@) == before + calls_view(src@.take(i as int)),
        decreases src.len() - i,
    {
        let ghost b = dst@;
        dst.push(src[i].clone());
        assert(calls_view(dst@) =~= calls_view(b).push(src@[i as int]@));
        assert(calls_view(src@.take(i + 1)) =~= calls_view(src@.take(i as int)).push(src@[i as int]@));
        i = i + 1;
    }
    assert(src@.take(src@.len() as int) == src@);
}

/// One turn of a model's streamed reply, as it comes in: the text so far and the tool calls
/// asked for so far.
pub struct TurnCollector {
    content: String,
    tool_calls: Vec<ToolCall>,
}

impl TurnCollector {
    /// The text so far.
    pub closed spec fn text(&self) -> Seq<char> {
        self.content@
    }

    /// The tool calls asked for so far, in order.
    pub closed spec fn calls(&self) -> Seq<ToolCallView> {
        calls_view(self.tool_calls@)
    }

    /// Nothing received yet.
    pub fn new() -> (r: Self)
        ensures
            r.text() == Seq::<char>::empty(),
            r.calls() == Seq::<ToolCallView>::empty(),
    {
        let r = TurnCollector { content: String::new(), tool_calls: Vec::new() };
        assert(r.calls() =~= Seq::<ToolCallView>::empty());
        r
    }

    /// Takes in one streamed chunk: its text is added and returned to be shown (when there
    /// is some), its tool calls are added, and the result says whether the turn is over.
    pub fn absorb(&mut self, resp: &OllamaStreamResponse) -> (r: (Option<String>, bool))
        ensures
            match shown_text(*resp) {
                Some(t) => r.0 matches Some(x) && x@ == t && final(self).text() == old(self).text()
                    + t,
                None => r.0 is None && final(self).text() == old(self).text(),
            },
            final(self).calls() == old(self).calls() + asked_calls(*resp),
            r.1 == resp.done,
    {
        let mut shown: Option<String> = None;
        match &resp.message {
            Some(m) => {
                if !m.content.as_str().is_empty() {
                    self.content.append(m.content.as_str());
                    shown = Some(m.content.clone());
                }
                match &m.tool_calls {
                    Some(v) => append_calls(&mut self.tool_calls, v),
                    None => {
                        assert(self.calls() =~= old(self).calls() + Seq::<ToolCallView>::empty());
                    },
                }
            },
            None => {
                assert(self.calls() =~= old(self).calls() + Seq::<ToolCallView>::empty());
            },
        }
        (shown, resp.done)
    }

    /// The text so far.
    pub fn content(&self) -> (r: &str)
        ensures
            r@ == self.text(),
    {
        self.content.as_str()
    }

    /// The tool calls asked for so far.
    pub fn tool_calls(&self) -> (r: &Vec<ToolCall>)
        ensures
            calls_view(r@) == self.calls(),
    {
        &self.tool_calls
    }
}

/// The text a tool's result is reported as: its output on success, else `Error: ` and its
/// error (or `Unknown error` when it has none).
pub open spec fn result_text(r: ToolResult) -> Seq<char> {
    if r.success {
        r.output@
    } else {
        "Error: "@ + match r.error {
            Some(e) => e@,
            None => "Unknown error"@,
        }
    }
}

/// The text a tool's result is reported as.
pub fn tool_result_text(result: &ToolResult) -> (r: String)
    ensures
        r@ == result_text(*result),
{
    if result.success {
        result.output.clone()
    } else {
        match &result.error {
            Some(e) => concat2("Error: ", e.as_str()),
            None => concat2("Error: ", "Unknown error"),
        }
    }
}

/// The result reported for a tool call, by its id, or `No result`.
pub open spec fn reported(results: Map<Seq<char>, Seq<char>>, id: Seq<char>) -> Seq<char> {
    if results.contains_key(id) {
        results[id]
    } else {
        "No result"@
    }
}

/// The messages that send tool results back to the model: the chat so far, the assistant's
/// turn with its text and tool calls, then one tool message per call with its result.
pub open spec fn follow_up(
    messages: Seq<MessageView>,
    content: Seq<char>,
    calls: Seq<ToolCallView>,
    results: Map<Seq<char>, Seq<char>>,
) -> Seq<MessageView> {
    messages.push(MessageView { role: "assistant"@, content, tool_calls: Some(calls) }) + calls.map_values(
        |c: ToolCallView| plain_message("tool"@, reported(results, c.id)),
    )
}

/// The messages that send tool results back to the model.
pub fn follow_up_messages(
    messages: &[ChatMessage],
    content: &str,
    calls: &Vec<ToolCall>,
    results: &StringMap,
) -> (r: Vec<ChatMessage>)
    ensures
        messages_view(r@) == follow_up(messages_view(messages@), content@, calls_view(calls@), results@),
{
    let mut r = clone_messages(messages);
    let assistant = ChatMessage {
        role: owned("assistant"),
        content: owned(content),
        tool_calls: Some(clone_calls(calls)),
    };
    let ghost start = r@;
    r.push(assistant);
    assert(messages_view(r@) =~= messages_view(start).push(assistant@));
    let ghost head = messages_view(r@);
    let ghost tail = calls_view(calls@).map_values(
        |c: ToolCallView| plain_message("tool"@, reported(results@, c.id)),
    );
    let mut i: usize = 0;
    while i < calls.len()
        invariant
            i <= calls@.len(),
            tail == calls_view(calls@).map_values(
                |c: ToolCallView| plain_message("tool"@, reported(results@, c.id)),
            ),
            messages_view(r@) == head + tail.take(i as int),
        decreases calls.len() - i,
    {
        let result = match results.get(calls[i].id.as_str()) {
            Some(t) => t.clone(),
            None => owned("No result"),
        };
        let m = ChatMessage { role: owned("tool"), content: result, tool_calls: None };
        let ghost b = r@;
        r.push(m);
        assert(calls_view(calls@)[i as int] == calls@[i as int]@);
        assert(messages_view(r@) =~= messages_view(b).push(m@));
        assert(tail.take(i + 1) =~= tail.take(i as int).push(tail[i as int]));
        i = i + 1;
    }
    assert(tail.take(tail.len() as int) == tail);
    r
}

/// What the user is sent while an agent chat streams.
pub enum ChatEvent {
    /// A note on what is happening.
    Think(String),
    /// A piece of the reply.
    Chunk(String),
    /// A tool about to run, with its raw arguments.
    ToolCall { id: String, name: String, arguments: String },
    /// A tool's result.
    ToolResult { id: String, name: String, result: String },
    /// A failure.
    Error(String),
    /// The end of the stream.
    Done,
}

/// The plain content of a `ChatEvent`.
pub enum EventView {
    Think(Seq<char>),
    Chunk(Seq<char>),
    ToolCall { id: Seq<char>, name: Seq<char>, arguments: Seq<char> },
    ToolResult { id: Seq<char>, name: Seq<char>, result: Seq<char> },
    Error(Seq<char>),
    Done,
}

impl View for ChatEvent {
    type V = EventView;

    open spec fn view(&self) -> EventView {
        match self {
            ChatEvent::Think(t) => EventView::Think(t@),
            ChatEvent::Chunk(t) => EventView::Chunk(t@),
            ChatEvent::ToolCall { id, name, arguments } => EventView::ToolCall {
                id: id@,
                name: name@,
                arguments: arguments@,
            },
            ChatEvent::ToolResult { id, name, result } => EventView::ToolResult {
                id: id@,
                name: name@,
                result: result@,
            },
            ChatEvent::Error(t) => EventView::Error(t@),
            ChatEvent::Done => EventView::Done,
        }
    }
}

/// The views of a sequence of events.
pub open spec fn events_view(v: Seq<ChatEvent>) -> Seq<EventView> {
    v.map_values(|e: ChatEvent| e@)
}

impl ChatEvent {
    /// The note sent before the model is asked: `Connecting to {model} model...`.
    pub fn connecting(model: &str) -> (r: ChatEvent)
        ensures
            r matches ChatEvent::Think(t) && t@ == "Connecting to "@ + model@ + " model..."@,
    {
        ChatEvent::Think(concat3("Connecting to ", model, " model..."))
    }

    /// The note sent before tool results go back to the model.
    pub fn processing_results() -> (r: ChatEvent)
        ensures
            r matches ChatEvent::Think(t) && t@ == "Processing tool results..."@,
    {
        ChatEvent::Think(owned("Processing tool results..."))
    }

    /// The failure sent when the agent does not exist: `Agent '{id}' not found`.
    pub fn agent_not_found(agent_id: &str) -> (r: ChatEvent)
        ensures
            r matches ChatEvent::Error(t) && t@ == "Agent '"@ + agent_id@ + "' not found"@,
    {
        ChatEvent::Error(concat3("Agent '", agent_id, "' not found"))
    }

    /// The failure sent when the model cannot be reached: `LLM error: {error}`.
    pub fn llm_error(error: &str) -> (r: ChatEvent)
        ensures
            r matches ChatEvent::Error(t) && t@ == "LLM error: "@ + error@,
    {
        ChatEvent::Error(concat2("LLM error: ", error))
    }

    /// The failure sent when the model cannot take the tool results:
    /// `Failed to process tool results: {error}`.
    pub fn tool_results_failed(error: &str) -> (r: ChatEvent)
        ensures
            r matches ChatEvent::Error(t) && t@ == "Failed to process tool results: "@ + error@,
    {
        ChatEvent::Error(concat2("Failed to process tool results: ", error))
    }

    /// The event for a tool about to run.
    pub fn tool_call(call: &ToolCall) -> (r: ChatEvent)
        ensures
            r matches ChatEvent::ToolCall { id, name, arguments } && id@ == call.id@ && name@
                == call.function.name@ && arguments@ == call.function.arguments@,
    {
        ChatEvent::ToolCall {
            id: call.id.clone(),
            name: call.function.name.clone(),
            arguments: call.function.arguments.clone(),
        }
    }

    /// The event for a tool's result, reported as `tool_result_text` does.
    pub fn tool_result(call: &ToolCall, result: &ToolResult) -> (r: ChatEvent)
        ensures
            r matches ChatEvent::ToolResult { id, name, result: text } && id@ == call.id@ && name@
                == call.function.name@ && text@ == result_text(*result),
    {
        ChatEvent::ToolResult {
            id: call.id.clone(),
            name: call.function.name.clone(),
            result: tool_result_text(result),
        }
    }
}

} // verus!
