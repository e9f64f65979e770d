//! An agent's conversation service: its context, its memory of the conversation, the
//! prompt it is given and the tools it may call. Sending a chat to the model is left to
//! the caller, who gets from here exactly what to send.
use vstd::prelude::*;
use vstd::string::*;
use crate::client::LLMClient;
use crate::context::{AgentContext, SkillInfo, enabled_skills};
use crate::executor::{ToolExecutor, RegisteredTool, defines, default_tools};
use crate::memory::{ConversationMemory, MemoryView, after_add, role_message, user_role, assistant_role, tool_role, tool_result_content, summary_text};
use crate::messages::{ChatMessage, MessageView, ToolCall, calls_view, messages_view};
use crate::prompts::{PromptBuilder, BuilderView, prompt_parts, is_context_tool, default_builder};
use crate::schema::ToolDefinition;
use crate::text::{join, owned};

verus! {

broadcast use vstd::string::group_string_axioms;

/// Whether `v` is the tool list of an agent: a tool per enabled skill, then the
/// executor's tools.
pub open spec fn tool_list(skills: Seq<SkillInfo>, registry: Seq<RegisteredTool>, v: Seq<ToolDefinition>) -> bool {
    let es = enabled_skills(skills);
    &&& v.len() == es.len() + registry.len()
    &&& forall|i: int| 0 <= i < es.len() ==> is_context_tool(#[trigger] v[i], es[i])
    &&& forall|j: int| 0 <= j < registry.len() ==> defines(#[trigger] v[es.len() + j], registry[j])
}

/// The tools offered with a chat: the tool list, or none when it is empty.
pub open spec fn offered_tools(
    skills: Seq<SkillInfo>,
    registry: Seq<RegisteredTool>,
    r: Option<Vec<ToolDefinition>>,
) -> bool {
    match r {
        None => enabled_skills(skills).len() == 0 && registry.len() == 0,
        Some(v) => v@.len() > 0 && tool_list(skills, registry, v@),
    }
}

/// An agent's conversation service.
pub struct LLMService {
    client: LLMClient,
    context: AgentContext,
    memory: ConversationMemory,
    prompt_builder: PromptBuilder,
    tool_executor: ToolExecutor,
}

impl LLMService {
    /// The client chats go through.
    pub closed spec fn llm(&self) -> LLMClient {
        self.client
    }

    /// The agent's context.
    pub closed spec fn ctx(&self) -> AgentContext {
        self.context
    }

    /// The conversation so far.
    pub closed spec fn mem(&self) -> MemoryView {
        self.memory@
    }

    /// The prompt settings.
    pub closed spec fn builder(&self) -> BuilderView {
        self.prompt_builder@
    }

    /// The tools the agent may call.
    pub closed spec fn executor(&self) -> ToolExecutor {
        self.tool_executor
    }

    /// A service for `context`, talking to a local endpoint for the agent's provider, with an
    /// empty memory, the default prompt settings and the default tools in `current_dir`;
    /// `canonicalize` stands for the file system.
    pub fn new<F: Fn(&str) -> Option<String>>(context: AgentContext, current_dir: String, canonicalize: F) -> (r: Self)
        requires
            forall|s: &str| canonicalize.requires((s,)),
        ensures
            r.ctx() == context,
            r.llm().made_for("http://127.0.0.1:11434"@, context.provider@, Seq::empty()),
            r.mem().messages == Seq::<MessageView>::empty(),
            r.mem().max_messages is None,
            r.builder() == default_builder(),
            r.executor().wf(),
            r.executor().directory() == current_dir@,
            r.executor().validator() is None,
            exists|s: &str, o: Option<String>|
                s@ == current_dir@ && #[trigger] canonicalize.ensures((s,), o) && default_tools(
                    r.executor().registry(),
                    current_dir@,
                    match o {
                        Some(c) => c@,
                        None => current_dir@,
                    },
                ),
    {
        let client = LLMClient::new(owned("http://127.0.0.1:11434"), context.provider.clone(), String::new());
        LLMService {
            client,
            context,
            memory: ConversationMemory::new(),
            prompt_builder: PromptBuilder::new(),
            tool_executor: ToolExecutor::new(current_dir, canonicalize),
        }
    }

    /// The same service with the default tools in `dir`.
    pub fn with_working_directory<F: Fn(&str) -> Option<String>>(self, dir: String, canonicalize: F) -> (r: Self)
        requires
            forall|s: &str| canonicalize.requires((s,)),
        ensures
            r.llm() == self.llm(),
            r.ctx() == self.ctx(),
            r.mem() == self.mem(),
            r.builder() == self.builder(),
            r.executor().wf(),
            r.executor().directory() == dir@,
            r.executor().validator() is None,
            exists|s: &str, o: Option<String>|
                s@ == dir@ && #[trigger] canonicalize.ensures((s,), o) && default_tools(
                    r.executor().registry(),
                    dir@,
                    match o {
                        Some(c) => c@,
                        None => dir@,
                    },
                ),
    {
        LLMService { tool_executor: ToolExecutor::new(dir, canonicalize), ..self }
    }

    /// The same service with another memory.
    pub fn with_memory(self, memory: ConversationMemory) -> (r: Self)
        ensures
            r.llm() == self.llm(),
            r.ctx() == self.ctx(),
            r.mem() == memory@,
            r.builder() == self.builder(),
            r.executor() == self.executor(),
    {
        LLMService { memory, ..self }
    }

    /// The same service with other prompt settings.
    pub fn with_prompt_builder(self, builder: PromptBuilder) -> (r: Self)
        ensures
            r.llm() == self.llm(),
            r.ctx() == self.ctx(),
            r.mem() == self.mem(),
            r.builder() == builder@,
            r.executor() == self.executor(),
    {
        LLMService { prompt_builder: builder, ..self }
    }

    /// The same service talking to `base_url` with `api_key`, for the agent's provider.
    pub fn with_provider_config(self, base_url: String, api_key: String) -> (r: Self)
        ensures
            r.llm().made_for(base_url@, self.ctx().provider@, api_key@),
            r.ctx() == self.ctx(),
            r.mem() == self.mem(),
            r.builder() == self.builder(),
            r.executor() == self.executor(),
    {
        let client = LLMClient::new(base_url, self.context.provider.clone(), api_key);
        LLMService { client, ..self }
    }

    /// The agent's context.
    pub fn get_context(&self) -> (r: &AgentContext)
        ensures
            *r == self.ctx(),
    {
        &self.context
    }

    /// The agent's context, to change it.
    pub fn get_context_mut(&mut self) -> (r: &mut AgentContext)
        ensures
            *r == old(self).ctx(),
            final(self).ctx() == *final(r),
            final(self).llm() == old(self).llm(),
            final(self).mem() == old(self).mem(),
            final(self).builder() == old(self).builder(),
            final(self).executor() == old(self).executor(),
    {
        &mut self.context
    }

    /// The conversation.
    pub fn get_memory(&self) -> (r: &ConversationMemory)
        ensures
            r@ == self.mem(),
    {
        &self.memory
    }

    /// The conversation, to change it.
    pub fn get_memory_mut(&mut self) -> (r: &mut ConversationMemory)
        ensures
            r@ == old(self).mem(),
            final(self).mem() == final(r)@,
            final(self).llm() == old(self).llm(),
            final(self).ctx() == old(self).ctx(),
            final(self).builder() == old(self).builder(),
            final(self).executor() == old(self).executor(),
    {
        &mut self.memory
    }

    /// The system prompt for the agent.
    pub fn build_system_prompt(&self) -> (r: String)
        ensures
            r@ == join(prompt_parts(self.builder(), self.ctx()), "\n\n"@),
    {
        self.prompt_builder.build(&self.context)
    }

    /// The tools offered with a chat: one per enabled skill, then the executor's tools;
    /// none when there are none.
    pub fn build_tools(&self) -> (r: Option<Vec<ToolDefinition>>)
        ensures
            offered_tools(self.ctx().skills@, self.executor().registry(), r),
    {
        let mut tools = self.prompt_builder.build_tools(&self.context);
        let mut system_tools = self.tool_executor.get_tool_definitions();
        let ghost a = tools@;
        let ghost b = system_tools@;
        tools.append(&mut system_tools);
        assert(tools@ == a + b);
        proof {
            let es = enabled_skills(self.ctx().skills@);
            assert forall|j: int| 0 <= j < b.len() implies defines(
                #[trigger] tools@[es.len() + j],
                self.executor().registry()[j],
            ) by {
                assert(tools@[es.len() + j] == b[j]);
            }
        }
        if tools.len() == 0 {
            None
        } else {
            Some(tools)
        }
    }

    /// The tools the agent may call.
    pub fn get_tool_executor(&self) -> (r: &ToolExecutor)
        ensures
            *r == self.executor(),
    {
        &self.tool_executor
    }

    /// The tools the agent may call, to change them.
    pub fn get_tool_executor_mut(&mut self) -> (r: &mut ToolExecutor)
        ensures
            *r == old(self).executor(),
            final(self).executor() == *final(r),
            final(self).llm() == old(self).llm(),
            final(self).ctx() == old(self).ctx(),
            final(self).mem() == old(self).mem(),
            final(self).builder() == old(self).builder(),
    {
        &mut self.tool_executor
    }

    /// The client chats go through.
    pub fn client(&self) -> (r: &LLMClient)
        ensures
            *r == self.llm(),
    {
        &self.client
    }

    /// What a chat sends, and the memory it leaves: the system prompt, the conversation so
    /// far and the user's message go to the model with the offered tools; the user's message
    /// is remembered.
    pub fn prepare_chat(&mut self, user_message: String) -> (r: (Vec<ChatMessage>, Option<Vec<ToolDefinition>>))
        ensures
            messages_view(r.0@) == seq![
                role_message("system"@, join(prompt_parts(old(self).builder(), old(self).ctx()), "\n\n"@)),
            ] + old(self).mem().messages + seq![role_message(user_role(), user_message@)],
            offered_tools(old(self).ctx().skills@, old(self).executor().registry(), r.1),
            final(self).mem() == after_add(old(self).mem(), role_message(user_role(), user_message@)),
            final(self).llm() == old(self).llm(),
            final(self).ctx() == old(self).ctx(),
            final(self).builder() == old(self).builder(),
            final(self).executor() == old(self).executor(),
    {
        let system_prompt = self.build_system_prompt();
        let tools = self.build_tools();
        let mut messages: Vec<ChatMessage> = Vec::new();
        messages.push(ChatMessage { role: owned("system"), content: system_prompt, tool_calls: None });
        let ghost first = messages@;
        let mut history = self.memory.get_messages_for_api();
        messages.append(&mut history);
        let user = ChatMessage { role: owned("user"), content: user_message.clone(), tool_calls: None };
        let ghost mid = messages@;
        messages.push(user);
        assert(messages_view(messages@) =~= seq![
            role_message("system"@, join(prompt_parts(old(self).builder(), old(self).ctx()), "\n\n"@)),
        ] + old(self).mem().messages + seq![role_message(user_role(), user_message@)]);
        self.memory.add_user_message(user_message);
        (messages, tools)
    }

    /// Remembers the assistant's answer.
    pub fn add_assistant_response(&mut self, content: String)
        ensures
            final(self).mem() == after_add(old(self).mem(), role_message(assistant_role(), content@)),
            final(self).llm() == old(self).llm(),
            final(self).ctx() == old(self).ctx(),
            final(self).builder() == old(self).builder(),
            final(self).executor() == old(self).executor(),
    {
        self.memory.add_assistant_message(content);
    }

    /// Remembers the assistant's answer and the tool calls it asked for.
    pub fn add_assistant_response_with_tools(&mut self, content: String, tool_calls: Vec<ToolCall>)
        ensures
            final(self).mem() == after_add(
                old(self).mem(),
                MessageView {
                    role: assistant_role(),
                    content: content@,
                    tool_calls: Some(calls_view(tool_calls@)),
                },
            ),
            final(self).llm() == old(self).llm(),
            final(self).ctx() == old(self).ctx(),
            final(self).builder() == old(self).builder(),
            final(self).executor() == old(self).executor(),
    {
        self.memory.add_assistant_message_with_tools(content, tool_calls);
    }

    /// Remembers a tool's result.
    pub fn add_tool_result(&mut self, tool_call_id: String, tool_name: String, result: String)
        ensures
            final(self).mem() == after_add(
                old(self).mem(),
                role_message(tool_role(), tool_result_content(tool_name@, result@)),
            ),
            final(self).llm() == old(self).llm(),
            final(self).ctx() == old(self).ctx(),
            final(self).builder() == old(self).builder(),
            final(self).executor() == old(self).executor(),
    {
        self.memory.add_tool_result(tool_call_id, tool_name, result);
    }

    /// Forgets the conversation.
    pub fn clear_conversation(&mut self)
        ensures
            final(self).mem().messages == Seq::<MessageView>::empty(),
            final(self).mem().max_messages == old(self).mem().max_messages,
            final(self).llm() == old(self).llm(),
            final(self).ctx() == old(self).ctx(),
            final(self).builder() == old(self).builder(),
            final(self).executor() == old(self).executor(),
    {
        self.memory.clear();
    }

    /// A one-line summary of the conversation.
    pub fn get_conversation_summary(&self) -> (r: String)
        ensures
            r@ == summary_text(self.mem().messages),
    {
        self.memory.get_conversation_summary()
    }
    /// Changes the agent's context with `f`.
    pub fn update_context<F: FnOnce(&mut AgentContext)>(&mut self, f: F)
        requires
            forall|c: &mut AgentContext| f.requires((c,)),
        ensures
            exists|c: &mut AgentContext|
                *c == old(self).ctx() && f.ensures((c,), ()) && final(self).ctx() == *final(c),
            final(self).llm() == old(self).llm(),
            final(self).mem() == old(self).mem(),
            final(self).builder() == old(self).builder(),
            final(self).executor() == old(self).executor(),
    {
        f(&mut self.context);
    }
}

} // verus!
