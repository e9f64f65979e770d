//! The conversation memory of an agent: an ordered list of messages,
//! optionally limited to the most recent ones.
use vstd::prelude::*;
use vstd::string::*;
use crate::messages::{ChatMessage, ToolCall, MessageView, calls_view, messages_view, clone_messages};
use crate::text::{decimal, decimal_string, owned, str_eq};

verus! {

broadcast use vstd::string::group_string_axioms;

/// The role of messages written by the user.
pub open spec fn user_role() -> Seq<char> {
    "user"@
}

/// The role of messages written by the model.
pub open spec fn assistant_role() -> Seq<char> {
    "assistant"@
}

/// The role of messages that carry a tool's result.
pub open spec fn tool_role() -> Seq<char> {
    "tool"@
}

/// The role of system instructions.
pub open spec fn system_role() -> Seq<char> {
    "system"@
}

/// A message of the given role and content, with no tool calls.
pub open spec fn role_message(role: Seq<char>, content: Seq<char>) -> MessageView {
    MessageView { role, content, tool_calls: None }
}

/// The content of a tool-result message.
pub open spec fn tool_result_content(tool_name: Seq<char>, result: Seq<char>) -> Seq<char> {
    "Tool result for "@ + tool_name + ": "@ + result
}

/// The plain content of a `ConversationMemory`.
pub struct MemoryView {
    pub messages: Seq<MessageView>,
    pub max_messages: Option<usize>,
}

/// `s` cut down to its last `k` messages when a limit `k` is set and exceeded.
pub open spec fn windowed(s: Seq<MessageView>, max: Option<usize>) -> Seq<MessageView> {
    match max {
        Some(k) => if s.len() > k {
            s.subrange(s.len() - k, s.len() as int)
        } else {
            s
        },
        None => s,
    }
}

/// The memory after `add_message(m)`.
pub open spec fn after_add(v: MemoryView, m: MessageView) -> MemoryView {
    MemoryView { messages: windowed(v.messages.push(m), v.max_messages), max_messages: v.max_messages }
}

/// The index of the last message of the given role, if any.
pub open spec fn last_with_role(s: Seq<MessageView>, role: Seq<char>) -> Option<int>
    decreases s.len(),
{
    if s.len() == 0 {
        None
    } else if s.last().role == role {
        Some(s.len() - 1)
    } else {
        last_with_role(s.drop_last(), role)
    }
}

/// The number of messages of the given role.
pub open spec fn count_role(s: Seq<MessageView>, role: Seq<char>) -> nat
    decreases s.len(),
{
    if s.len() == 0 {
        0
    } else {
        count_role(s.drop_last(), role) + if s.last().role == role {
            1nat
        } else {
            0nat
        }
    }
}

/// The messages of the given role, in order.
pub open spec fn with_role(s: Seq<MessageView>, role: Seq<char>) -> Seq<MessageView>
    decreases s.len(),
{
    if s.len() == 0 {
        Seq::empty()
    } else if s.last().role == role {
        with_role(s.drop_last(), role).push(s.last())
    } else {
        with_role(s.drop_last(), role)
    }
}

/// The messages after `truncate_to_last_n_messages(n)`: when there are more than `n`,
/// every system message followed by the last `n` messages.
pub open spec fn truncated(s: Seq<MessageView>, n: nat) -> Seq<MessageView> {
    if s.len() > n {
        with_role(s, system_role()) + s.subrange(s.len() - n, s.len() as int)
    } else {
        s
    }
}

/// The text of `get_conversation_summary`.
pub open spec fn summary_text(s: Seq<MessageView>) -> Seq<char> {
    "Conversation: "@ + decimal(count_role(s, user_role())) + " user messages, "@ + decimal(
        count_role(s, assistant_role()),
    ) + " assistant messages, "@ + decimal(count_role(s, tool_role())) + " tool calls"@
}

/// An ordered conversation history with an optional limit on its length.
pub struct ConversationMemory {
    messages: Vec<ChatMessage>,
    max_messages: Option<usize>,
}

impl View for ConversationMemory {
    type V = MemoryView;

    closed spec fn view(&self) -> MemoryView {
        MemoryView { messages: messages_view(self.messages@), max_messages: self.max_messages }
    }
}

/// Whether the message has the given role.
fn has_role(m: &ChatMessage, role: &str) -> (r: bool)
    ensures
        r == (m@.role == role@),
{
    str_eq(m.role.as_str(), role)
}

impl ConversationMemory {
    /// An empty memory with no limit.
    pub fn new() -> (r: Self)
        ensures
            r@.messages == Seq::<MessageView>::empty(),
            r@.max_messages is None,
    {
        let r = ConversationMemory { messages: Vec::new(), max_messages: None };
        assert(messages_view(r.messages@) =~= Seq::<MessageView>::empty());
        r
    }

    /// The same memory, limited from now on to the `max` most recent messages.
    /// The messages already held are kept as they are.
    pub fn with_max_messages(self, max: usize) -> (r: Self)
        ensures
            r@.messages == self@.messages,
            r@.max_messages == Some(max),
    {
        ConversationMemory { messages: self.messages, max_messages: Some(max) }
    }

    /// Appends a message; with a limit set, the oldest messages beyond it are dropped.
    pub fn add_message(&mut self, message: ChatMessage)
        ensures
            final(self)@ == after_add(old(self)@, message@),
    {
        let ghost m = message@;
        self.messages.push(message);
        assert(messages_view(self.messages@) =~= messages_view(old(self).messages@).push(m));
        if let Some(max) = self.max_messages {
            if self.messages.len() > max {
                let remove_count = self.messages.len() - max;
                let ghost before = self.messages@;
                let tail = self.messages.split_off(remove_count);
                self.messages = tail;
                assert(messages_view(self.messages@) =~= messages_view(before).subrange(
                    before.len() - max,
                    before.len() as int,
                ));
            }
        }
    }

    /// Appends a user message.
    pub fn add_user_message(&mut self, content: String)
        ensures
            final(self)@ == after_add(old(self)@, role_message(user_role(), content@)),
    {
        let m = ChatMessage { role: owned("user"), content, tool_calls: None };
        self.add_message(m);
    }

    /// Appends an assistant message.
    pub fn add_assistant_message(&mut self, content: String)
        ensures
            final(self)@ == after_add(old(self)@, role_message(assistant_role(), content@)),
    {
        let m = ChatMessage { role: owned("assistant"), content, tool_calls: None };
        self.add_message(m);
    }

    /// Appends an assistant message that requests tool calls.
    pub fn add_assistant_message_with_tools(&mut self, content: String, tool_calls: Vec<ToolCall>)
        ensures
            final(self)@ == after_add(
                old(self)@,
                MessageView {
                    role: assistant_role(),
                    content: content@,
                    tool_calls: Some(calls_view(tool_calls@)),
                },
            ),
    {
        let m = ChatMessage { role: owned("assistant"), content, tool_calls: Some(tool_calls) };
        self.add_message(m);
    }

    /// Appends a tool message that reports `result` for `tool_name`.
    /// The tool call's id is not recorded.
    pub fn add_tool_result(&mut self, _tool_call_id: String, tool_name: String, result: String)
        ensures
            final(self)@ == after_add(
                old(self)@,
                role_message(tool_role(), tool_result_content(tool_name@, result@)),
            ),
    {
        let mut content = owned("Tool result for ");
        content.append(tool_name.as_str());
        content.append(": ");
        content.append(result.as_str());
        let m = ChatMessage { role: owned("tool"), content, tool_calls: None };
        self.add_message(m);
    }

    /// Puts a system message in front of all others. The limit is not applied.
    pub fn add_system_message(&mut self, content: String)
        ensures
            final(self)@.messages == old(self)@.messages.insert(
                0,
                role_message(system_role(), content@),
            ),
            final(self)@.max_messages == old(self)@.max_messages,
    {
        let m = ChatMessage { role: owned("system"), content, tool_calls: None };
        let ghost mv = m@;
        self.messages.insert(0, m);
        assert(messages_view(self.messages@) =~= messages_view(old(self).messages@).insert(0, mv));
    }

    /// The messages, oldest first.
    pub fn get_messages(&self) -> (r: &[ChatMessage])
        ensures
            messages_view(r@) == self@.messages,
    {
        self.messages.as_slice()
    }

    /// A copy of the messages, oldest first, for a request to the model.
    pub fn get_messages_for_api(&self) -> (r: Vec<ChatMessage>)
        ensures
            messages_view(r@) == self@.messages,
    {
        clone_messages(self.messages.as_slice())
    }

    /// Removes every message; the limit stays.
    pub fn clear(&mut self)
        ensures
            final(self)@.messages == Seq::<MessageView>::empty(),
            final(self)@.max_messages == old(self)@.max_messages,
    {
        self.messages.clear();
        assert(messages_view(self.messages@) =~= Seq::<MessageView>::empty());
    }

    /// The number of messages.
    pub fn len(&self) -> (r: usize)
        ensures
            r == self@.messages.len(),
    {
        self.messages.len()
    }

    /// Whether there is no message.
    pub fn is_empty(&self) -> (r: bool)
        ensures
            r == (self@.messages.len() == 0),
    {
        self.messages.is_empty()
    }

    /// The last message of the given role.
    fn last_of_role(&self, role: &str) -> (r: Option<&ChatMessage>)
        ensures
            r is Some == last_with_role(self@.messages, role@) is Some,
            r matches Some(m) ==> m@ == self@.messages[last_with_role(self@.messages, role@)->0],
    {
        let ghost s = self@.messages;
        let mut i = self.messages.len();
        assert(s.take(i as int) == s);
        while i > 0
            invariant
                i <= self.messages@.len(),
                s == messages_view(self.messages@),
                last_with_role(s, role@) == last_with_role(s.take(i as int), role@),
            decreases i,
        {
            if has_role(&self.messages[i - 1], role) {
                return Some(&self.messages[i - 1]);
            }
            assert(s.take(i as int).drop_last() == s.take(i - 1));
            i = i - 1;
        }
        None
    }

    /// The most recent user message.
    pub fn last_user_message(&self) -> (r: Option<&ChatMessage>)
        ensures
            r is Some == last_with_role(self@.messages, user_role()) is Some,
            r matches Some(m) ==> m@ == self@.messages[last_with_role(
                self@.messages,
                user_role(),
            )->0],
    {
        self.last_of_role("user")
    }

    /// The most recent assistant message.
    pub fn last_assistant_message(&self) -> (r: Option<&ChatMessage>)
        ensures
            r is Some == last_with_role(self@.messages, assistant_role()) is Some,
            r matches Some(m) ==> m@ == self@.messages[last_with_role(
                self@.messages,
                assistant_role(),
            )->0],
    {
        self.last_of_role("assistant")
    }

    /// The number of messages of the given role.
    fn count_of_role(&self, role: &str) -> (r: usize)
        ensures
            r == count_role(self@.messages, role@),
    {
        let ghost s = self@.messages;
        let mut n: usize = 0;
        let mut i: usize = 0;
        while i < self.messages.len()
            invariant
                i <= self.messages@.len(),
                s == messages_view(self.messages@),
                n == count_role(s.take(i as int), role@),
                n <= i,
            decreases self.messages.len() - i,
        {
            assert(s.take(i + 1).drop_last() == s.take(i as int));
            if has_role(&self.messages[i], role) {
                n = n + 1;
            }
            i = i + 1;
        }
        assert(s.take(i as int) == s);
        n
    }

    /// A one-line summary with the number of user, assistant and tool messages.
    pub fn get_conversation_summary(&self) -> (r: String)
        ensures
            r@ == summary_text(self@.messages),
    {
        let user_count = self.count_of_role("user");
        let assistant_count = self.count_of_role("assistant");
        let tool_count = self.count_of_role("tool");
        let mut r = owned("Conversation: ");
        r.append(decimal_string(user_count).as_str());
        r.append(" user messages, ");
        r.append(decimal_string(assistant_count).as_str());
        r.append(" assistant messages, ");
        r.append(decimal_string(tool_count).as_str());
        r.append(" tool calls");
        r
    }

    /// When there are more than `n` messages, keeps every system message followed by the
    /// last `n` messages (a system message among those appears twice).
    pub fn truncate_to_last_n_messages(&mut self, n: usize)
        ensures
            final(self)@.messages == truncated(old(self)@.messages, n as nat),
            final(self)@.max_messages == old(self)@.max_messages,
    {
        if self.messages.len() > n {
            let ghost s = self@.messages;
            let len = self.messages.len();
            let mut kept: Vec<ChatMessage> = Vec::new();
            let mut i: usize = 0;
            while i < len
                invariant
                    len == self.messages@.len(),
                    i <= len,
                    s == messages_view(self.messages@),
                    messages_view(kept@) == with_role(s.take(i as int), system_role()),
                decreases len - i,
            {
                assert(s.take(i + 1).drop_last() == s.take(i as int));
                if has_role(&self.messages[i], "system") {
                    let ghost before = kept@;
                    kept.push(self.messages[i].clone());
                    assert(messages_view(kept@) =~= messages_view(before).push(s[i as int]));
                }
                i = i + 1;
            }
            assert(s.take(len as int) == s);
            let ghost systems = kept@;
            let mut j: usize = len - n;
            while j < len
                invariant
                    len == self.messages@.len(),
                    n < len,
                    len - n <= j <= len,
                    s.len() == len,
                    s == messages_view(self.messages@),
                    messages_view(kept@) == messages_view(systems) + s.subrange(
                        len - n,
                        j as int,
                    ),
                decreases len - j,
            {
                let ghost before = kept@;
                kept.push(self.messages[j].clone());
                assert(messages_view(kept@) =~= messages_view(before).push(s[j as int]));
                assert(s.subrange(len - n, j + 1) =~= s.subrange(len - n, j as int).push(
                    s[j as int],
                ));
                j = j + 1;
            }
            self.messages = kept;
        }
    }
}

impl Default for ConversationMemory {
    fn default() -> (r: Self)
        ensures
            r@.messages == Seq::<MessageView>::empty(),
            r@.max_messages is None,
    {
        Self::new()
    }
}

/// With a limit of `k`, a memory holds at most `k` messages after any `add_message`.
pub proof fn lemma_window_bound(v: MemoryView, m: MessageView, k: usize)
    requires
        v.max_messages == Some(k),
    ensures
        after_add(v, m).messages.len() <= k,
{
}

/// `add_message` keeps the order: the result is the old messages followed by the new one,
/// with some of the oldest dropped.
pub proof fn lemma_add_is_suffix(v: MemoryView, m: MessageView)
    ensures
        ({
            let s = v.messages.push(m);
            let r = after_add(v, m).messages;
            r.len() <= s.len() && r == s.subrange(s.len() - r.len(), s.len() as int)
        }),
{
    let s = v.messages.push(m);
    assert(s.subrange(0, s.len() as int) == s);
}

/// Unless the limit is zero, the message just added is the newest one held.
pub proof fn lemma_add_keeps_newest(v: MemoryView, m: MessageView)
    requires
        v.max_messages != Some(0usize),
    ensures
        after_add(v, m).messages.len() > 0,
        after_add(v, m).messages.last() == m,
{
}

/// Unless the limit is zero, the last message of a role read back after adding a message
/// of that role is the one just added.
pub proof fn lemma_last_of_role_reads_back(v: MemoryView, role: Seq<char>, content: Seq<char>)
    requires
        v.max_messages != Some(0usize),
    ensures
        ({
            let s = after_add(v, role_message(role, content)).messages;
            last_with_role(s, role) == Some(s.len() - 1) && s[s.len() - 1].content == content
        }),
{
}

/// The messages of a role are as many as `count_role` says.
pub proof fn lemma_with_role_len(s: Seq<MessageView>, role: Seq<char>)
    ensures
        with_role(s, role).len() == count_role(s, role),
    decreases s.len(),
{
    if s.len() > 0 {
        lemma_with_role_len(s.drop_last(), role);
    }
}

/// When there are more than `n` messages, truncation keeps the system messages first and
/// then exactly the last `n` messages; otherwise it changes nothing.
pub proof fn lemma_truncate_shape(s: Seq<MessageView>, n: nat)
    ensures
        s.len() <= n ==> truncated(s, n) == s,
        s.len() > n ==> truncated(s, n).len() == count_role(s, system_role()) + n,
        s.len() > n ==> truncated(s, n).subrange(
            count_role(s, system_role()) as int,
            truncated(s, n).len() as int,
        ) == s.subrange(s.len() - n, s.len() as int),
        s.len() > n ==> forall|i: int|
            0 <= i < count_role(s, system_role()) ==> (#[trigger] truncated(s, n)[i]).role
                == system_role(),
{
    lemma_with_role_len(s, system_role());
    if s.len() > n {
        lemma_with_role_all(s, system_role());
        let t = truncated(s, n);
        let c = count_role(s, system_role());
        assert(t.subrange(c as int, t.len() as int) =~= s.subrange(s.len() - n, s.len() as int));
    }
}

/// Every message kept by `with_role` has that role.
pub proof fn lemma_with_role_all(s: Seq<MessageView>, role: Seq<char>)
    ensures
        forall|i: int| 0 <= i < with_role(s, role).len() ==> (#[trigger] with_role(s, role)[i]).role
            == role,
    decreases s.len(),
{
    if s.len() > 0 {
        lemma_with_role_all(s.drop_last(), role);
    }
}

/// The counts in the summary never add up to more than the number of messages.
pub proof fn lemma_summary_counts_bounded(s: Seq<MessageView>)
    ensures
        count_role(s, user_role()) + count_role(s, assistant_role()) + count_role(s, tool_role())
            <= s.len(),
    decreases s.len(),
{
    reveal_strlit("user");
    reveal_strlit("assistant");
    reveal_strlit("tool");
    if s.len() > 0 {
        lemma_summary_counts_bounded(s.drop_last());
        assert(user_role().len() != assistant_role().len());
        assert(user_role()[0] != tool_role()[0]);
        assert(assistant_role().len() != tool_role().len());
    }
}

/// How many messages of a list have the given role, counted by filtering.
pub open spec fn messages_with_role(s: Seq<MessageView>, role: Seq<char>) -> nat {
    s.filter(|m: MessageView| m.role == role).len()
}

/// Counting a role message by message gives the number of messages with that role.
pub proof fn lemma_count_role_filters(s: Seq<MessageView>, role: Seq<char>)
    ensures
        count_role(s, role) == messages_with_role(s, role),
    decreases s.len(),
{
    reveal(Seq::filter);
    if s.len() > 0 {
        lemma_count_role_filters(s.drop_last(), role);
    }
}

/// The summary of a conversation names, in this order, how many of its messages have the
/// role `user`, how many `assistant`, and how many `tool`.
pub proof fn lemma_summary_reports_roles(s: Seq<MessageView>)
    ensures
        summary_text(s) == "Conversation: "@ + decimal(messages_with_role(s, "user"@))
            + " user messages, "@ + decimal(messages_with_role(s, "assistant"@))
            + " assistant messages, "@ + decimal(messages_with_role(s, "tool"@)) + " tool calls"@,
{
    lemma_count_role_filters(s, "user"@);
    lemma_count_role_filters(s, "assistant"@);
    lemma_count_role_filters(s, "tool"@);
}

} // verus!
