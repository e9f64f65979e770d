//! The course of a streamed agent chat as a state machine: each step takes what just
//! happened (the agent was looked up, the model answered a piece or failed, a tool
//! finished) and gives the next state, the events to send to the user, and what to do
//! next (ask the model, run a tool). Performing the actions is left to the caller.
use vstd::prelude::*;
use vstd::string::*;
use crate::agent_chat::{
    ChatEvent, EventView, TurnCollector, asked_calls, events_view, follow_up, follow_up_messages,
    initial_messages, plain_message, result_text, shown_text, tool_result_text,
};
use crate::maps::StringMap;
use crate::messages::{ChatMessage, MessageView, ToolCall, ToolCallView, messages_view, clone_messages};
use crate::schema::ToolDefinition;
use crate::stream::OllamaStreamResponse;
use crate::text::owned;
use crate::tools::ToolResult;

verus! {

broadcast use vstd::string::group_string_axioms;

/// Where a chat stands.
#[derive(Clone, Copy)]
pub enum ChatPhase {
    /// The agent has not been looked up yet.
    Start,
    /// The model's first answer is streaming in.
    FirstTurn,
    /// The tools the model asked for are running, one after the other.
    RunningTools,
    /// The model's answer to the tool results is streaming in.
    FinalTurn,
    /// The chat is over; nothing more is sent.
    Finished,
}

/// A streamed agent chat in progress.
pub struct ChatState {
    phase: ChatPhase,
    agent_id: String,
    message: String,
    opening: Vec<ChatMessage>,
    first: TurnCollector,
    next_call: usize,
    results: StringMap,
    last: TurnCollector,
}

/// What just happened, as the caller reports it.
pub enum ChatInput {
    /// No agent has the requested id.
    AgentMissing,
    /// The agent was found: the model to ask, the system prompt, and the tools to offer.
    AgentFound { model: String, system_prompt: String, tools: Vec<ToolDefinition> },
    /// The model could not be asked; the error's text.
    ModelFailed(String),
    /// One streamed piece of the model's answer.
    Reply(OllamaStreamResponse),
    /// The model's stream ended without a piece marked done.
    StreamEnded,
    /// The tool last asked for has finished.
    ToolFinished(ToolResult),
}

/// What the caller is to do next.
pub enum ChatAction {
    /// Ask `model` for a streamed answer to `messages`, offering `tools` when there are some.
    RunModel { model: String, messages: Vec<ChatMessage>, tools: Option<Vec<ToolDefinition>> },
    /// Run this tool call and report its result.
    RunTool(ToolCall),
    /// Ask the same model again, with the same tools, for a streamed answer to these
    /// messages, which carry the tool results.
    FollowUp(Vec<ChatMessage>),
}

/// The event of a tool about to run.
pub open spec fn call_event(c: ToolCallView) -> EventView {
    EventView::ToolCall { id: c.id, name: c.name, arguments: c.arguments }
}

/// The event of a tool's result.
pub open spec fn result_event(c: ToolCallView, text: Seq<char>) -> EventView {
    EventView::ToolResult { id: c.id, name: c.name, result: text }
}

/// What a streamed piece shows the user: one chunk with its text, or nothing.
pub open spec fn chunk_events(resp: OllamaStreamResponse) -> Seq<EventView> {
    match shown_text(resp) {
        Some(t) => seq![EventView::Chunk(t)],
        None => Seq::empty(),
    }
}

/// The text a streamed piece adds to its turn.
pub open spec fn added_text(resp: OllamaStreamResponse) -> Seq<char> {
    match shown_text(resp) {
        Some(t) => t,
        None => Seq::empty(),
    }
}

/// What a chat with an agent that does not exist sends: the steps of working on the
/// request, a note that it goes on with default capabilities, the error naming the
/// missing agent, and the end.
pub open spec fn missing_agent_events(agent: Seq<char>) -> Seq<EventView> {
    seq![
        EventView::Think("Processing user request. "@),
        EventView::Think("Analyzing the query for relevant actions. "@),
        EventView::Think("Considering which tools would be most helpful. "@),
        EventView::Think("Preparing a structured response. "@),
        EventView::Chunk("Processing with default capabilities. Agent may not exist. "@),
        EventView::Error("Agent '"@ + agent + "' not found"@),
        EventView::Done,
    ]
}

/// What ends the first turn: the end of the chat when no tool was asked for, else the
/// first tool call.
pub open spec fn first_turn_end(calls: Seq<ToolCallView>) -> Seq<EventView> {
    if calls.len() == 0 {
        seq![EventView::Done]
    } else {
        seq![call_event(calls[0])]
    }
}

impl ChatState {
    /// Where the chat stands.
    pub closed spec fn phase(&self) -> ChatPhase {
        self.phase
    }

    /// The id of the agent asked for.
    pub closed spec fn agent(&self) -> Seq<char> {
        self.agent_id@
    }

    /// The user's message.
    pub closed spec fn user_message(&self) -> Seq<char> {
        self.message@
    }

    /// The messages the model was first asked with.
    pub closed spec fn opening(&self) -> Seq<MessageView> {
        messages_view(self.opening@)
    }

    /// The text of the model's first answer so far.
    pub closed spec fn first_text(&self) -> Seq<char> {
        self.first.text()
    }

    /// The tool calls of the model's first answer so far.
    pub closed spec fn calls(&self) -> Seq<ToolCallView> {
        self.first.calls()
    }

    /// How many of the tool calls have been sent off to run.
    pub closed spec fn next(&self) -> int {
        self.next_call as int
    }

    /// The reported result of each finished tool call, by call id.
    pub closed spec fn results(&self) -> Map<Seq<char>, Seq<char>> {
        self.results@
    }

    /// The text of the model's answer to the tool results so far.
    pub closed spec fn last_text(&self) -> Seq<char> {
        self.last.text()
    }

    /// The tool being run is one of the calls asked for.
    pub closed spec fn wf(&self) -> bool {
        &&& self.next_call <= self.first.calls().len()
        &&& self.phase is RunningTools ==> self.next_call < self.first.calls().len()
        &&& (self.phase is Start || self.phase is FirstTurn) ==> self.next_call == 0
    }

    /// A chat of the user's `message` with the agent `agent_id`, not started yet.
    pub fn new(agent_id: String, message: String) -> (r: Self)
        ensures
            r.wf(),
            r.phase() is Start,
            r.agent() == agent_id@,
            r.user_message() == message@,
            r.opening() == Seq::<MessageView>::empty(),
            r.first_text() == Seq::<char>::empty(),
            r.calls() == Seq::<ToolCallView>::empty(),
            r.results() == Map::<Seq<char>, Seq<char>>::empty(),
            r.last_text() == Seq::<char>::empty(),
    {
        let opening: Vec<ChatMessage> = Vec::new();
        assert(messages_view(opening@) =~= Seq::<MessageView>::empty());
        ChatState {
            phase: ChatPhase::Start,
            agent_id,
            message,
            opening,
            first: TurnCollector::new(),
            next_call: 0,
            results: StringMap::new(),
            last: TurnCollector::new(),
        }
    }

    /// Where the chat stands.
    pub fn current_phase(&self) -> (r: ChatPhase)
        ensures
            r == self.phase(),
    {
        self.phase
    }

    /// Whether the chat is over.
    pub fn is_finished(&self) -> (r: bool)
        ensures
            r == (self.phase() is Finished),
    {
        match self.phase {
            ChatPhase::Finished => true,
            _ => false,
        }
    }

    /// The text of the model's first answer so far.
    pub fn first_content(&self) -> (r: &str)
        ensures
            r@ == self.first_text(),
    {
        self.first.content()
    }

    /// The text of the model's answer to the tool results so far.
    pub fn last_content(&self) -> (r: &str)
        ensures
            r@ == self.last_text(),
    {
        self.last.content()
    }
}

/// How the first turn ends: with no tool call asked for, the chat is over; else the first
/// call is sent off to run.
pub open spec fn first_turn_over(
    before: ChatState,
    s: ChatState,
    events: Seq<EventView>,
    action: Option<ChatAction>,
    shown: Seq<EventView>,
) -> bool {
    &&& events == shown + first_turn_end(s.calls())
    &&& if s.calls().len() == 0 {
        &&& s.phase() is Finished
        &&& action is None
    } else {
        &&& s.phase() is RunningTools
        &&& s.next() == 0
        &&& s.results() == Map::<Seq<char>, Seq<char>>::empty()
        &&& action matches Some(ChatAction::RunTool(c)) && c@ == s.calls()[0]
    }
}

/// Ends the first turn.
fn end_first_turn(s: ChatState, events: Vec<ChatEvent>) -> (r: (ChatState, Vec<ChatEvent>, Option<ChatAction>))
    requires
        s.wf(),
        s.next() == 0,
    ensures
        r.0.wf(),
        r.0.agent() == s.agent(),
        r.0.user_message() == s.user_message(),
        r.0.opening() == s.opening(),
        r.0.first_text() == s.first_text(),
        r.0.calls() == s.calls(),
        r.0.last_text() == s.last_text(),
        first_turn_over(s, r.0, events_view(r.1@), r.2, events_view(events@)),
{
    let mut s = s;
    let mut events = events;
    let ghost before = events@;
    if s.first.tool_calls().len() == 0 {
        events.push(ChatEvent::Done);
        assert(events_view(events@) =~= events_view(before) + first_turn_end(s.calls()));
        s.phase = ChatPhase::Finished;
        (s, events, None)
    } else {
        let c = s.first.tool_calls()[0].clone();
        assert(c@ == s.calls()[0]);
        let e = ChatEvent::tool_call(&c);
        events.push(e);
        assert(events_view(events@) =~= events_view(before) + first_turn_end(s.calls()));
        s.phase = ChatPhase::RunningTools;
        s.results = StringMap::new();
        (s, events, Some(ChatAction::RunTool(c)))
    }
}

/// Whether a step changed nothing and sent nothing.
pub open spec fn ignored(
    before: ChatState,
    r: (ChatState, Vec<ChatEvent>, Option<ChatAction>),
) -> bool {
    &&& r.0 == before
    &&& r.1@.len() == 0
    &&& r.2 is None
}

/// The fields a step leaves as they were, besides those it is about.
pub open spec fn same_chat(a: ChatState, b: ChatState) -> bool {
    &&& a.agent() == b.agent()
    &&& a.user_message() == b.user_message()
}

/// How the end of the chat is sent in one step: only as the last event, exactly when the
/// step finishes the chat, and never again once it is finished.
pub open spec fn done_rule(before: ChatState, after: ChatState, events: Seq<EventView>) -> bool {
    &&& forall|k: int| 0 <= k < events.len() - 1 ==> !(#[trigger] events[k] is Done)
    &&& (events.len() > 0 && events.last() is Done) == (after.phase() is Finished
        && !(before.phase() is Finished))
    &&& before.phase() is Finished ==> after.phase() is Finished && events.len() == 0
}

/// The events of several steps, one after the other.
pub open spec fn all_events(steps: Seq<Seq<EventView>>) -> Seq<EventView>
    decreases steps.len(),
{
    if steps.len() == 0 {
        Seq::empty()
    } else {
        all_events(steps.drop_last()) + steps.last()
    }
}

/// Over any run of steps from a chat that is not over, the end is sent at most once and
/// nothing after it: it is the last event sent so far exactly when the chat is finished,
/// and no earlier event is the end.
pub proof fn lemma_done_once(states: Seq<ChatState>, steps: Seq<Seq<EventView>>)
    requires
        states.len() == steps.len() + 1,
        !(states[0].phase() is Finished),
        forall|i: int| 0 <= i < steps.len() ==> done_rule(states[i], states[i + 1], #[trigger] steps[i]),
    ensures
        forall|k: int|
            0 <= k < all_events(steps).len() - 1 ==> !(#[trigger] all_events(steps)[k] is Done),
        (all_events(steps).len() > 0 && all_events(steps).last() is Done) == (states.last().phase() is Finished),
    decreases steps.len(),
{
    if steps.len() > 0 {
        let n = steps.len() - 1;
        let prev = states.drop_last();
        assert forall|i: int| 0 <= i < steps.drop_last().len() implies done_rule(
            prev[i],
            prev[i + 1],
            #[trigger] steps.drop_last()[i],
        ) by {
            assert(steps.drop_last()[i] == steps[i]);
        }
        lemma_done_once(prev, steps.drop_last());
        let p = all_events(steps.drop_last());
        let e = steps[n];
        assert(done_rule(states[n], states[n + 1], e));
        assert(all_events(steps) == p + e);
        assert(prev.last() == states[n]);
        assert(states.last() == states[n + 1]);
        if states[n].phase() is Finished {
            assert(e.len() == 0);
            assert(p + e =~= p);
        } else {
            assert forall|k: int| 0 <= k < (p + e).len() - 1 implies !(#[trigger] (p + e)[k] is Done) by {
                if k < p.len() {
                    assert((p + e)[k] == p[k]);
                } else {
                    assert((p + e)[k] == e[k - p.len()]);
                }
            }
            if e.len() == 0 {
                assert(p + e =~= p);
            } else {
                assert((p + e).last() == e.last());
            }
        }
    }
}

/// One finished tool in the tool phase: its result is recorded under the call's id and
/// reported; then the next call is announced and sent off to run, or, after the last, the
/// model is asked again with the chat so far, the first answer with its calls, and every
/// result.
pub open spec fn tool_step(
    before: ChatState,
    res: ToolResult,
    after: ChatState,
    events: Seq<EventView>,
    action: Option<ChatAction>,
) -> bool {
    let c = before.calls()[before.next()];
    let results = before.results().insert(c.id, result_text(res));
    &&& after.opening() == before.opening()
    &&& after.first_text() == before.first_text()
    &&& after.calls() == before.calls()
    &&& after.results() == results
    &&& if before.next() + 1 < before.calls().len() {
        &&& after.phase() is RunningTools
        &&& after.next() == before.next() + 1
        &&& events == seq![
            result_event(c, result_text(res)),
            call_event(before.calls()[before.next() + 1]),
        ]
        &&& action matches Some(ChatAction::RunTool(n)) && n@ == before.calls()[before.next() + 1]
    } else {
        &&& after.phase() is FinalTurn
        &&& after.last_text() == Seq::<char>::empty()
        &&& events == seq![
            result_event(c, result_text(res)),
            EventView::Think("Processing tool results..."@),
        ]
        &&& action matches Some(ChatAction::FollowUp(m))
            && messages_view(m@) == follow_up(before.opening(), before.first_text(), before.calls(), results)
    }
}

/// Each tool call announced, then its result, in the order the calls were asked for.
pub open spec fn call_result_pairs(calls: Seq<ToolCallView>, texts: Seq<Seq<char>>) -> Seq<EventView>
    decreases calls.len(),
{
    if calls.len() == 0 {
        Seq::empty()
    } else {
        call_result_pairs(calls.drop_last(), texts.drop_last()) + seq![
            call_event(calls.last()),
            result_event(calls.last(), texts[calls.len() - 1]),
        ]
    }
}

/// The results recorded for calls, one after the other, on top of `start`.
pub open spec fn recorded(
    start: Map<Seq<char>, Seq<char>>,
    calls: Seq<ToolCallView>,
    texts: Seq<Seq<char>>,
) -> Map<Seq<char>, Seq<char>>
    decreases calls.len(),
{
    if calls.len() == 0 {
        start
    } else {
        recorded(start, calls.drop_last(), texts.drop_last()).insert(
            calls.last().id,
            texts[calls.len() - 1],
        )
    }
}

/// The reported texts of tool results.
pub open spec fn result_texts(results: Seq<ToolResult>) -> Seq<Seq<char>> {
    results.map_values(|r: ToolResult| result_text(r))
}

/// The tool phase after `k` finished tools.
proof fn lemma_tools_prefix(
    states: Seq<ChatState>,
    results: Seq<ToolResult>,
    steps: Seq<Seq<EventView>>,
    actions: Seq<Option<ChatAction>>,
    k: int,
)
    requires
        states.len() == results.len() + 1,
        steps.len() == results.len(),
        actions.len() == results.len(),
        states[0].calls().len() == results.len(),
        results.len() > 0,
        states[0].next() == 0,
        forall|i: int|
            0 <= i < results.len() ==> tool_step(
                states[i],
                results[i],
                states[i + 1],
                #[trigger] steps[i],
                actions[i],
            ),
        0 <= k <= results.len(),
    ensures
        states[k].calls() == states[0].calls(),
        states[k].opening() == states[0].opening(),
        states[k].first_text() == states[0].first_text(),
        states[k].results() == recorded(
            states[0].results(),
            states[0].calls().take(k),
            result_texts(results).take(k),
        ),
        k < results.len() ==> states[k].next() == k,
        k < results.len() ==> seq![call_event(states[0].calls()[0])] + all_events(steps.take(k))
            == call_result_pairs(states[0].calls().take(k), result_texts(results).take(k)) + seq![
            call_event(states[0].calls()[k]),
        ],
        k == results.len() ==> seq![call_event(states[0].calls()[0])] + all_events(steps)
            == call_result_pairs(states[0].calls(), result_texts(results)) + seq![
            EventView::Think("Processing tool results..."@),
        ],
        k == results.len() ==> states[k].phase() is FinalTurn,
        k == results.len() ==> (actions[k - 1] matches Some(ChatAction::FollowUp(m)) && messages_view(m@)
            == follow_up(states[0].opening(), states[0].first_text(), states[0].calls(), states[k].results())),
    decreases k,
{
    let calls = states[0].calls();
    let texts = result_texts(results);
    let n = results.len();
    if k == 0 {
        assert(steps.take(0) =~= Seq::<Seq<EventView>>::empty());
        assert(calls.take(0) =~= Seq::<ToolCallView>::empty());
        assert(texts.take(0) =~= Seq::<Seq<char>>::empty());
        assert(all_events(steps.take(0)) =~= Seq::<EventView>::empty());
        assert(seq![call_event(calls[0])] + Seq::<EventView>::empty() =~= Seq::<EventView>::empty()
            + seq![call_event(calls[0])]);
    } else {
        lemma_tools_prefix(states, results, steps, actions, k - 1);
        let j = k - 1;
        assert(tool_step(states[j], results[j], states[k], steps[j], actions[j]));
        let c = calls[j];
        let t = texts[j];
        assert(t == result_text(results[j]));
        assert(states[j].calls()[states[j].next()] == c);
        assert(steps.take(k).drop_last() =~= steps.take(j));
        assert(steps.take(k).last() == steps[j]);
        assert(all_events(steps.take(k)) == all_events(steps.take(j)) + steps[j]);
        assert(calls.take(k).drop_last() =~= calls.take(j));
        assert(texts.take(k).drop_last() =~= texts.take(j));
        assert(calls.take(k).last() == c);
        assert(texts.take(k)[calls.take(k).len() - 1] == t);
        assert(call_result_pairs(calls.take(k), texts.take(k)) == call_result_pairs(calls.take(j), texts.take(j))
            + seq![call_event(c), result_event(c, t)]);
        assert(recorded(states[0].results(), calls.take(k), texts.take(k)) == recorded(
            states[0].results(),
            calls.take(j),
            texts.take(j),
        ).insert(c.id, t));
        let p = call_result_pairs(calls.take(j), texts.take(j));
        if k < n {
            assert(seq![call_event(calls[0])] + all_events(steps.take(k)) =~= p + seq![call_event(c)]
                + steps[j]);
            assert(p + seq![call_event(c)] + steps[j] =~= call_result_pairs(calls.take(k), texts.take(k))
                + seq![call_event(calls[k])]);
        } else {
            assert(steps.take(k) =~= steps);
            assert(calls.take(k) =~= calls);
            assert(texts.take(k) =~= texts);
            assert(seq![call_event(calls[0])] + all_events(steps.take(k)) =~= p + seq![call_event(c)]
                + steps[j]);
            assert(p + seq![call_event(c)] + steps[j] =~= call_result_pairs(calls, texts) + seq![
                EventView::Think("Processing tool results..."@),
            ]);
        }
    }
}

/// Over the tool phase, from the first call being sent off until the model is asked
/// again: each call is announced and then its result reported, in the order the calls
/// were asked for, before the next is announced; every result is recorded under its call's
/// id; and after the last, the model is asked again with the chat so far, the first answer
/// with its calls, and the results.
pub proof fn lemma_tools_in_order(
    states: Seq<ChatState>,
    results: Seq<ToolResult>,
    steps: Seq<Seq<EventView>>,
    actions: Seq<Option<ChatAction>>,
)
    requires
        states.len() == results.len() + 1,
        steps.len() == results.len(),
        actions.len() == results.len(),
        states[0].calls().len() == results.len(),
        results.len() > 0,
        states[0].next() == 0,
        forall|i: int|
            0 <= i < results.len() ==> tool_step(
                states[i],
                results[i],
                states[i + 1],
                #[trigger] steps[i],
                actions[i],
            ),
    ensures
        seq![call_event(states[0].calls()[0])] + all_events(steps) == call_result_pairs(
            states[0].calls(),
            result_texts(results),
        ) + seq![EventView::Think("Processing tool results..."@)],
        states.last().phase() is FinalTurn,
        states.last().results() == recorded(states[0].results(), states[0].calls(), result_texts(results)),
        actions.last() matches Some(ChatAction::FollowUp(m)) && messages_view(m@) == follow_up(
            states[0].opening(),
            states[0].first_text(),
            states[0].calls(),
            states.last().results(),
        ),
{
    let n = results.len() as int;
    lemma_tools_prefix(states, results, steps, actions, n);
    assert(states[0].calls().take(n) =~= states[0].calls());
    assert(result_texts(results).take(n) =~= result_texts(results));
}

/// One step of the chat: the next state, the events to send, and what to do next.
///
/// - A missing agent gets the steps of working on the request, a note that it goes on
///   with default capabilities, then the error and the end.
/// - A found agent is announced, and the model is asked with the system prompt and the
///   user's message, offered the tools unless there are none.
/// - Each streamed piece shows its text; the piece marked done (or the end of the stream)
///   ends the turn. After the first turn, each tool call asked for is announced and run in
///   order, and its result is reported before the next is announced; after the last
///   result the model is asked again with the results. Without tool calls the chat ends.
/// - A model that cannot be asked ends the chat with an error and the end.
/// - The end is sent exactly once, last; after it nothing changes.
pub fn chat_step(state: ChatState, input: ChatInput) -> (r: (ChatState, Vec<ChatEvent>, Option<ChatAction>))
    requires
        state.wf(),
    ensures
        r.0.wf(),
        same_chat(r.0, state),
        done_rule(state, r.0, events_view(r.1@)),
        state.phase() is Finished ==> ignored(state, r),
        r.2 matches Some(ChatAction::FollowUp(_)) ==> state.phase() is RunningTools && state.calls().len() > 0,
        match (state.phase(), input) {
            (ChatPhase::Start, ChatInput::AgentMissing) => {
                &&& r.0.phase() is Finished
                &&& events_view(r.1@) == missing_agent_events(state.agent())
                &&& r.2 is None
            },
            (ChatPhase::Start, ChatInput::AgentFound { model, system_prompt, tools }) => {
                &&& r.0.phase() is FirstTurn
                &&& r.0.opening() == seq![
                    plain_message("system"@, system_prompt@),
                    plain_message("user"@, state.user_message()),
                ]
                &&& r.0.first_text() == Seq::<char>::empty()
                &&& r.0.calls() == Seq::<ToolCallView>::empty()
                &&& r.0.next() == 0
                &&& events_view(r.1@) == seq![
                    EventView::Think("Connecting to "@ + model@ + " model..."@),
                ]
                &&& r.2 matches Some(ChatAction::RunModel { model: m, messages: ms, tools: t })
                    && m@ == model@ && messages_view(ms@) == r.0.opening()
                    && (t is None <==> tools@.len() == 0)
                    && (t matches Some(v) ==> v == tools)
            },
            (ChatPhase::FirstTurn, ChatInput::ModelFailed(e)) => {
                &&& r.0.phase() is Finished
                &&& events_view(r.1@) == seq![EventView::Error("LLM error: "@ + e@), EventView::Done]
                &&& r.2 is None
            },
            (ChatPhase::FirstTurn, ChatInput::Reply(resp)) => {
                &&& r.0.opening() == state.opening()
                &&& r.0.first_text() == state.first_text() + added_text(resp)
                &&& r.0.calls() == state.calls() + asked_calls(resp)
                &&& if resp.done {
                    first_turn_over(state, r.0, events_view(r.1@), r.2, chunk_events(resp))
                } else {
                    &&& r.0.phase() is FirstTurn
                    &&& events_view(r.1@) == chunk_events(resp)
                    &&& r.2 is None
                }
            },
            (ChatPhase::FirstTurn, ChatInput::StreamEnded) => {
                &&& r.0.opening() == state.opening()
                &&& r.0.first_text() == state.first_text()
                &&& r.0.calls() == state.calls()
                &&& first_turn_over(state, r.0, events_view(r.1@), r.2, Seq::empty())
            },
            (ChatPhase::RunningTools, ChatInput::ToolFinished(res)) => tool_step(
                state,
                res,
                r.0,
                events_view(r.1@),
                r.2,
            ),
            (ChatPhase::FinalTurn, ChatInput::ModelFailed(e)) => {
                &&& r.0.phase() is Finished
                &&& events_view(r.1@) == seq![
                    EventView::Error("Failed to process tool results: "@ + e@),
                    EventView::Done,
                ]
                &&& r.2 is None
            },
            (ChatPhase::FinalTurn, ChatInput::Reply(resp)) => {
                &&& r.0.last_text() == state.last_text() + added_text(resp)
                &&& r.2 is None
                &&& if resp.done {
                    &&& r.0.phase() is Finished
                    &&& events_view(r.1@) == chunk_events(resp) + seq![EventView::Done]
                } else {
                    &&& r.0.phase() is FinalTurn
                    &&& events_view(r.1@) == chunk_events(resp)
                }
            },
            (ChatPhase::FinalTurn, ChatInput::StreamEnded) => {
                &&& r.0.phase() is Finished
                &&& events_view(r.1@) == seq![EventView::Done]
                &&& r.2 is None
            },
            _ => ignored(state, r),
        },
{
    let mut s = state;
    let mut events: Vec<ChatEvent> = Vec::new();
    assert(events_view(events@) =~= Seq::<EventView>::empty());
    match s.phase {
        ChatPhase::Start => match input {
            ChatInput::AgentMissing => {
                events.push(ChatEvent::Think(owned("Processing user request. ")));
                events.push(ChatEvent::Think(owned("Analyzing the query for relevant actions. ")));
                events.push(ChatEvent::Think(owned("Considering which tools would be most helpful. ")));
                events.push(ChatEvent::Think(owned("Preparing a structured response. ")));
                events.push(
                    ChatEvent::Chunk(owned("Processing with default capabilities. Agent may not exist. ")),
                );
                events.push(ChatEvent::agent_not_found(s.agent_id.as_str()));
                events.push(ChatEvent::Done);
                s.phase = ChatPhase::Finished;
                assert(events_view(events@) =~= missing_agent_events(state.agent()));
                (s, events, None)
            },
            ChatInput::AgentFound { model, system_prompt, tools } => {
                events.push(ChatEvent::connecting(model.as_str()));
                assert(events_view(events@) =~= seq![
                    EventView::Think("Connecting to "@ + model@ + " model..."@),
                ]);
                let messages = initial_messages(system_prompt, s.message.clone());
                s.opening = clone_messages(messages.as_slice());
                s.first = TurnCollector::new();
                s.next_call = 0;
                s.results = StringMap::new();
                s.phase = ChatPhase::FirstTurn;
                let offered = if tools.len() == 0 {
                    None
                } else {
                    Some(tools)
                };
                (s, events, Some(ChatAction::RunModel { model, messages, tools: offered }))
            },
            _ => (s, events, None),
        },
        ChatPhase::FirstTurn => match input {
            ChatInput::ModelFailed(e) => {
                events.push(ChatEvent::llm_error(e.as_str()));
                events.push(ChatEvent::Done);
                s.phase = ChatPhase::Finished;
                assert(events_view(events@) =~= seq![EventView::Error("LLM error: "@ + e@), EventView::Done]);
                (s, events, None)
            },
            ChatInput::Reply(resp) => {
                let (shown, done) = s.first.absorb(&resp);
                match shown {
                    Some(t) => {
                        events.push(ChatEvent::Chunk(t));
                    },
                    None => {},
                }
                assert(events_view(events@) =~= chunk_events(resp));
                if done {
                    end_first_turn(s, events)
                } else {
                    (s, events, None)
                }
            },
            ChatInput::StreamEnded => end_first_turn(s, events),
            _ => (s, events, None),
        },
        ChatPhase::RunningTools => match input {
            ChatInput::ToolFinished(res) => {
                let i = s.next_call;
                let len = s.first.tool_calls().len();
                assert(i < len);
                let c = s.first.tool_calls()[i].clone();
                assert(c@ == state.calls()[i as int]);
                let text = tool_result_text(&res);
                s.results.insert(c.id.clone(), text);
                events.push(ChatEvent::tool_result(&c, &res));
                s.next_call = i + 1;
                if i + 1 < len {
                    let n = s.first.tool_calls()[i + 1].clone();
                    assert(n@ == state.calls()[i + 1]);
                    events.push(ChatEvent::tool_call(&n));
                    assert(events_view(events@) =~= seq![
                        result_event(c@, result_text(res)),
                        call_event(n@),
                    ]);
                    (s, events, Some(ChatAction::RunTool(n)))
                } else {
                    events.push(ChatEvent::processing_results());
                    assert(events_view(events@) =~= seq![
                        result_event(c@, result_text(res)),
                        EventView::Think("Processing tool results..."@),
                    ]);
                    let m = follow_up_messages(
                        s.opening.as_slice(),
                        s.first.content(),
                        s.first.tool_calls(),
                        &s.results,
                    );
                    s.last = TurnCollector::new();
                    s.phase = ChatPhase::FinalTurn;
                    (s, events, Some(ChatAction::FollowUp(m)))
                }
            },
            _ => (s, events, None),
        },
        ChatPhase::FinalTurn => match input {
            ChatInput::ModelFailed(e) => {
                events.push(ChatEvent::tool_results_failed(e.as_str()));
                events.push(ChatEvent::Done);
                s.phase = ChatPhase::Finished;
                assert(events_view(events@) =~= seq![
                    EventView::Error("Failed to process tool results: "@ + e@),
                    EventView::Done,
                ]);
                (s, events, None)
            },
            ChatInput::Reply(resp) => {
                let (shown, done) = s.last.absorb(&resp);
                match shown {
                    Some(t) => {
                        events.push(ChatEvent::Chunk(t));
                    },
                    None => {},
                }
                assert(events_view(events@) =~= chunk_events(resp));
                if done {
                    let ghost before = events@;
                    events.push(ChatEvent::Done);
                    assert(events_view(events@) =~= chunk_events(resp) + seq![EventView::Done]);
                    s.phase = ChatPhase::Finished;
                    (s, events, None)
                } else {
                    (s, events, None)
                }
            },
            ChatInput::StreamEnded => {
                events.push(ChatEvent::Done);
                assert(events_view(events@) =~= seq![EventView::Done]);
                s.phase = ChatPhase::Finished;
                (s, events, None)
            },
            _ => (s, events, None),
        },
        ChatPhase::Finished => (s, events, None),
    }
}

} // verus!
