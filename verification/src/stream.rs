//! Reading a model's streamed reply: cutting the byte stream into lines, telling
//! server-sent-event lines apart, and gathering tool calls that arrive in fragments.
use vstd::prelude::*;
use vstd::string::*;
use crate::messages::{ChatMessage, ToolCall, FunctionCall, MessageView, ToolCallView, calls_view};
use crate::schema::ToolDefinition;
use crate::ids::clock_since_epoch;
use crate::text::{
    trim, find_char, lemma_find_char, chars_of, find_char_index, sub_chars, trim_chars,
    string_from_chars, has_prefix, starts_with_chars, chars_eq, owned,
};

verus! {

broadcast use vstd::string::group_string_axioms;

/// What `String::from_utf8_lossy` makes of some bytes.
pub uninterp spec fn lossy_text(bytes: Seq<u8>) -> Seq<char>;

/// `String::from_utf8_lossy`: the bytes decoded as UTF-8, with invalid sequences replaced.
/// The contract only names the result; the decoding itself is std's.
#[verifier::external_body]
fn decode_lossy(bytes: &[u8]) -> (r: String)
    ensures
        r@ == lossy_text(bytes@),
{
    String::from_utf8_lossy(bytes).to_string()
}

/// Text received from a stream and not yet cut into lines.
pub struct LineBuffer {
    buffer: String,
}

impl View for LineBuffer {
    type V = Seq<char>;

    closed spec fn view(&self) -> Seq<char> {
        self.buffer@
    }
}

/// The line that `next_line` takes from `buffer`, before trimming, and what stays: `None`
/// while no line ending has arrived.
pub open spec fn line_split(buffer: Seq<char>) -> Option<(Seq<char>, Seq<char>)> {
    match find_char(buffer, '\n') {
        Some(p) => Some((buffer.take(p), buffer.skip(p + 1))),
        None => None,
    }
}

impl LineBuffer {
    /// An empty buffer.
    pub fn new() -> (r: Self)
        ensures
            r@ == Seq::<char>::empty(),
    {
        LineBuffer { buffer: String::new() }
    }

    /// Appends text that arrived.
    pub fn push_text(&mut self, text: &str)
        ensures
            final(self)@ == old(self)@ + text@,
    {
        self.buffer.append(text);
    }

    /// Appends bytes that arrived, decoded as UTF-8 with invalid sequences replaced.
    pub fn push_bytes(&mut self, bytes: &[u8])
        ensures
            final(self)@ == old(self)@ + lossy_text(bytes@),
    {
        let text = decode_lossy(bytes);
        self.buffer.append(text.as_str());
    }

    /// Takes the first complete line, trimmed, and keeps what follows its line ending;
    /// `None`, with the buffer unchanged, while no line ending has arrived.
    pub fn next_line(&mut self) -> (r: Option<String>)
        ensures
            match line_split(old(self)@) {
                Some((line, rest)) => r is Some && r->0@ == trim(line) && final(self)@ == rest,
                None => r is None && final(self)@ == old(self)@,
            },
    {
        let v = chars_of(self.buffer.as_str());
        match find_char_index(v.as_slice(), '\n') {
            None => None,
            Some(p) => {
                proof {
                    lemma_find_char(v@, '\n');
                }
                let line = trim_chars(sub_chars(v.as_slice(), 0, p).as_slice());
                let rest = sub_chars(v.as_slice(), p + 1, v.len());
                assert(v@.take(p as int) == v@.subrange(0, p as int));
                assert(v@.skip(p + 1) == v@.subrange(p + 1, v@.len() as int));
                self.buffer = string_from_chars(rest.as_slice());
                Some(string_from_chars(line.as_slice()))
            },
        }
    }
}

/// Cutting a line off loses nothing: the line, its line ending and what stays make up the
/// buffer as it was.
pub proof fn lemma_line_split_keeps_text(buffer: Seq<char>)
    ensures
        line_split(buffer) matches Some((line, rest)) ==> buffer == line + seq!['\n'] + rest,
        line_split(buffer) is None ==> !buffer.contains('\n'),
{
    lemma_find_char(buffer, '\n');
    if let Some((line, rest)) = line_split(buffer) {
        let p = find_char(buffer, '\n')->0;
        assert(buffer =~= buffer.take(p) + seq!['\n'] + buffer.skip(p + 1));
    }
}

/// A line of a server-sent-event stream.
pub enum SseLine {
    /// Not a `data: ` line.
    Ignored,
    /// `data: [DONE]`: the stream is over.
    Done,
    /// The payload of a `data: ` line.
    Data(String),
}

/// How a line of an event stream reads: the text after `data: `, or the end marker.
pub open spec fn sse_kind(line: Seq<char>) -> Option<Option<Seq<char>>> {
    if has_prefix(line, "data: "@) {
        let data = line.skip("data: "@.len() as int);
        if data == "[DONE]"@ {
            Some(None)
        } else {
            Some(Some(data))
        }
    } else {
        None
    }
}

/// Tells a line of an event stream apart.
pub fn classify_sse_line(line: &str) -> (r: SseLine)
    ensures
        match sse_kind(line@) {
            None => r is Ignored,
            Some(None) => r is Done,
            Some(Some(d)) => r matches SseLine::Data(x) && x@ == d,
        },
{
    let v = chars_of(line);
    let prefix = chars_of("data: ");
    if !starts_with_chars(v.as_slice(), prefix.as_slice()) {
        return SseLine::Ignored;
    }
    let data = sub_chars(v.as_slice(), prefix.len(), v.len());
    assert(v@.skip(prefix@.len() as int) == v@.subrange(prefix@.len() as int, v@.len() as int));
    let done = chars_of("[DONE]");
    if chars_eq(data.as_slice(), done.as_slice()) {
        SseLine::Done
    } else {
        SseLine::Data(string_from_chars(data.as_slice()))
    }
}

/// The line to parse from a newline-delimited JSON stream: any line but an empty one.
pub fn json_line(line: &str) -> (r: Option<&str>)
    ensures
        line@.len() == 0 ==> r is None,
        line@.len() > 0 ==> r == Some(line),
{
    if line.is_empty() {
        None
    } else {
        Some(line)
    }
}

/// A function call in a streamed delta: each field may be missing.
pub struct OpenAIFunctionCall {
    pub name: Option<String>,
    pub arguments: Option<String>,
}

/// A fragment of a tool call in a streamed delta, found again by its index.
pub struct OpenAIToolCall {
    pub index: i32,
    pub id: Option<String>,
    pub function: Option<OpenAIFunctionCall>,
}

/// What a streamed choice adds.
pub struct OpenAIDelta {
    pub content: Option<String>,
    pub tool_calls: Option<Vec<OpenAIToolCall>>,
}

/// One choice of a streamed chunk.
pub struct OpenAIStreamChoice {
    pub delta: OpenAIDelta,
    pub finish_reason: Option<String>,
}

/// One chunk of an OpenAI-style stream.
pub struct OpenAIStreamResponse {
    pub choices: Vec<OpenAIStreamChoice>,
}

/// One chunk of an Ollama-style stream; the form every stream is turned into.
pub struct OllamaStreamResponse {
    pub model: String,
    pub created_at: String,
    pub message: Option<ChatMessage>,
    pub done: bool,
    pub total_duration: Option<u64>,
    pub eval_count: Option<u64>,
}

/// The whole reply of a chat that was not streamed.
pub struct OllamaChatResponse {
    pub model: String,
    pub created_at: String,
    pub message: ChatMessage,
    pub done: bool,
}

/// A chat request as sent to a model.
pub struct OllamaRequest {
    pub model: String,
    pub messages: Vec<ChatMessage>,
    pub tools: Option<Vec<ToolDefinition>>,
    pub stream: bool,
}

/// The plain content of an `OllamaStreamResponse`.
pub struct StreamResponseView {
    pub model: Seq<char>,
    pub created_at: Seq<char>,
    pub message: Option<MessageView>,
    pub done: bool,
    pub total_duration: Option<u64>,
    pub eval_count: Option<u64>,
}

impl View for OllamaStreamResponse {
    type V = StreamResponseView;

    open spec fn view(&self) -> StreamResponseView {
        StreamResponseView {
            model: self.model@,
            created_at: self.created_at@,
            message: match self.message {
                Some(m) => Some(m@),
                None => None,
            },
            done: self.done,
            total_duration: self.total_duration,
            eval_count: self.eval_count,
        }
    }
}

/// The views of a sequence of stream chunks.
pub open spec fn responses_view(v: Seq<OllamaStreamResponse>) -> Seq<StreamResponseView> {
    v.map_values(|r: OllamaStreamResponse| r@)
}

/// A tool call being gathered: its index, id, name and the arguments so far.
pub struct PendingView {
    pub index: int,
    pub id: Seq<char>,
    pub name: Seq<char>,
    pub arguments: Seq<char>,
}

/// What a fragment brings to the call with its index.
pub struct FragmentView {
    pub index: int,
    pub id: Option<Seq<char>>,
    pub name: Option<Seq<char>>,
    pub arguments: Option<Seq<char>>,
}

/// The plain form of an optional text.
pub open spec fn opt_text(o: Option<String>) -> Option<Seq<char>> {
    match o {
        Some(s) => Some(s@),
        None => None,
    }
}

/// The plain content of a fragment.
pub open spec fn fragment_of(tc: OpenAIToolCall) -> FragmentView {
    FragmentView {
        index: tc.index as int,
        id: opt_text(tc.id),
        name: match tc.function {
            Some(f) => opt_text(f.name),
            None => None,
        },
        arguments: match tc.function {
            Some(f) => opt_text(f.arguments),
            None => None,
        },
    }
}

/// Whether no two pending calls share an index.
pub open spec fn distinct_indices(s: Seq<PendingView>) -> bool {
    forall|i: int, j: int| 0 <= i < j < s.len() ==> s[i].index != s[j].index
}

/// Whether some pending call has the index `k`.
pub open spec fn has_index(s: Seq<PendingView>, k: int) -> bool {
    exists|p: int| 0 <= p < s.len() && s[p].index == k
}

/// A pending call with a fragment applied: a new id or name replaces the old one, and
/// argument text is appended.
pub open spec fn apply_fragment(e: PendingView, f: FragmentView) -> PendingView {
    PendingView {
        index: e.index,
        id: match f.id {
            Some(i) => i,
            None => e.id,
        },
        name: match f.name {
            Some(n) => n,
            None => e.name,
        },
        arguments: match f.arguments {
            Some(a) => e.arguments + a,
            None => e.arguments,
        },
    }
}

/// The pending calls after a fragment: it goes to the call with its index, or to a new
/// call at the end (whose id starts as the fragment's, or empty).
pub open spec fn absorb_one(s: Seq<PendingView>, f: FragmentView) -> Seq<PendingView> {
    if has_index(s, f.index) {
        let p = choose|p: int| 0 <= p < s.len() && s[p].index == f.index;
        s.update(p, apply_fragment(s[p], f))
    } else {
        let fresh = PendingView {
            index: f.index,
            id: match f.id {
                Some(i) => i,
                None => Seq::empty(),
            },
            name: Seq::empty(),
            arguments: Seq::empty(),
        };
        s.push(apply_fragment(fresh, f))
    }
}

/// The pending calls after a list of fragments, taken in order.
pub open spec fn absorb_all(s: Seq<PendingView>, tcs: Seq<OpenAIToolCall>) -> Seq<PendingView>
    decreases tcs.len(),
{
    if tcs.len() == 0 {
        s
    } else {
        absorb_one(absorb_all(s, tcs.drop_last()), fragment_of(tcs.last()))
    }
}

/// The tool calls that the pending calls stand for.
pub open spec fn pending_calls(s: Seq<PendingView>) -> Seq<ToolCallView> {
    s.map_values(
        |e: PendingView|
            ToolCallView { id: e.id, tool_type: "function"@, name: e.name, arguments: e.arguments },
    )
}

/// A tool call being gathered.
struct PendingCall {
    index: i32,
    id: String,
    name: String,
    arguments: String,
}

/// Tool calls that arrive in fragments, gathered by index in the order their indices first
/// appeared.
pub struct ToolCallAccumulator {
    calls: Vec<PendingCall>,
}

/// The plain content of the pending calls.
spec fn pending_view(v: Seq<PendingCall>) -> Seq<PendingView> {
    v.map_values(
        |c: PendingCall|
            PendingView { index: c.index as int, id: c.id@, name: c.name@, arguments: c.arguments@ },
    )
}

impl View for ToolCallAccumulator {
    type V = Seq<PendingView>;

    closed spec fn view(&self) -> Seq<PendingView> {
        pending_view(self.calls@)
    }
}

/// Applying a fragment keeps the indices distinct.
pub proof fn lemma_absorb_keeps_distinct(s: Seq<PendingView>, f: FragmentView)
    requires
        distinct_indices(s),
    ensures
        distinct_indices(absorb_one(s, f)),
        absorb_one(s, f).len() == if has_index(s, f.index) {
            s.len()
        } else {
            s.len() + 1
        },
        has_index(absorb_one(s, f), f.index),
{
    let r = absorb_one(s, f);
    if has_index(s, f.index) {
        let p = choose|p: int| 0 <= p < s.len() && s[p].index == f.index;
        assert(r[p].index == f.index);
    } else {
        assert(r[s.len() as int].index == f.index);
    }
}

/// Gathering fragments keeps the indices distinct.
pub proof fn lemma_absorb_all_keeps_distinct(s: Seq<PendingView>, tcs: Seq<OpenAIToolCall>)
    requires
        distinct_indices(s),
    ensures
        distinct_indices(absorb_all(s, tcs)),
    decreases tcs.len(),
{
    if tcs.len() > 0 {
        lemma_absorb_all_keeps_distinct(s, tcs.drop_last());
        lemma_absorb_keeps_distinct(absorb_all(s, tcs.drop_last()), fragment_of(tcs.last()));
    }
}

/// An optional text, or the empty text.
fn text_or_empty(o: &Option<String>) -> (r: String)
    ensures
        r@ == match opt_text(*o) {
            Some(t) => t,
            None => Seq::<char>::empty(),
        },
{
    match o {
        Some(t) => t.clone(),
        None => String::new(),
    }
}

impl ToolCallAccumulator {
    /// Whether no two pending calls share an index.
    pub open spec fn wf(&self) -> bool {
        distinct_indices(self@)
    }

    /// No pending calls.
    pub fn new() -> (r: Self)
        ensures
            r.wf(),
            r@ == Seq::<PendingView>::empty(),
    {
        let r = ToolCallAccumulator { calls: Vec::new() };
        assert(r@ =~= Seq::<PendingView>::empty());
        r
    }

    /// Whether no call is pending.
    pub fn is_empty(&self) -> (r: bool)
        ensures
            r == (self@.len() == 0),
    {
        self.calls.len() == 0
    }

    /// Applies a fragment to the call with its index, starting that call when it is new.
    pub fn absorb(&mut self, tc: &OpenAIToolCall)
        requires
            old(self).wf(),
        ensures
            final(self).wf(),
            final(self)@ == absorb_one(old(self)@, fragment_of(*tc)),
    {
        let ghost s = self@;
        let ghost f = fragment_of(*tc);
        proof {
            lemma_absorb_keeps_distinct(s, f);
        }
        let mut p: usize = 0;
        while p < self.calls.len() && self.calls[p].index != tc.index
            invariant
                s == self@,
                f == fragment_of(*tc),
                p <= self.calls@.len(),
                forall|j: int| 0 <= j < p ==> s[j].index != f.index,
            decreases self.calls.len() - p,
        {
            assert(s[p as int] == pending_view(self.calls@)[p as int]);
            p = p + 1;
        }
        let found = p < self.calls.len();
        if !found {
            assert(!has_index(s, f.index));
            let fresh = PendingCall {
                index: tc.index,
                id: text_or_empty(&tc.id),
                name: String::new(),
                arguments: String::new(),
            };
            self.calls.push(fresh);
            assert(self@ =~= s.push(pending_view(self.calls@)[p as int]));
        } else {
            assert(s[p as int].index == f.index);
            assert(has_index(s, f.index));
            proof {
                let q = choose|q: int| 0 <= q < s.len() && s[q].index == f.index;
                assert(q == p);
            }
        }
        let ghost mid = self@;
        let e = &self.calls[p];
        let new_id = match &tc.id {
            Some(i) => i.clone(),
            None => e.id.clone(),
        };
        let new_name = match &tc.function {
            Some(func) => match &func.name {
                Some(n) => n.clone(),
                None => e.name.clone(),
            },
            None => e.name.clone(),
        };
        let mut new_args = e.arguments.clone();
        match &tc.function {
            Some(func) => match &func.arguments {
                Some(a) => {
                    new_args.append(a.as_str());
                },
                None => {},
            },
            None => {},
        }
        let updated = PendingCall { index: tc.index, id: new_id, name: new_name, arguments: new_args };
        self.calls.set(p, updated);
        assert(self@ =~= mid.update(p as int, apply_fragment(mid[p as int], f)));
    }

    /// The gathered calls as tool calls of type `function`, in the order their indices
    /// first appeared.
    pub fn tool_calls(&self) -> (r: Vec<ToolCall>)
        ensures
            calls_view(r@) == pending_calls(self@),
    {
        let mut r: Vec<ToolCall> = Vec::new();
        let mut i: usize = 0;
        while i < self.calls.len()
            invariant
                i <= self.calls@.len(),
                calls_view(r@) == pending_calls(self@).take(i as int),
            decreases self.calls.len() - i,
        {
            let c = &self.calls[i];
            let tc = ToolCall {
                id: c.id.clone(),
                tool_type: owned("function"),
                function: FunctionCall { name: c.name.clone(), arguments: c.arguments.clone() },
            };
            let ghost before = r@;
            proof {
                let pv = self@[i as int];
                assert(pv == pending_view(self.calls@)[i as int]);
                assert(pending_calls(self@)[i as int] == tc@);
            }
            r.push(tc);
            assert(calls_view(r@) =~= calls_view(before).push(pending_calls(self@)[i as int]));
            assert(calls_view(r@) =~= pending_calls(self@).take(i + 1));
            i = i + 1;
        }
        assert(pending_calls(self@).take(self@.len() as int) =~= pending_calls(self@));
        r
    }
}

/// The pending calls after the fragments of one choice.
pub open spec fn after_choice(s: Seq<PendingView>, c: OpenAIStreamChoice) -> Seq<PendingView> {
    match c.delta.tool_calls {
        Some(v) => absorb_all(s, v@),
        None => s,
    }
}

/// The pending calls after the choices of a chunk, taken in order.
pub open spec fn after_choices(s: Seq<PendingView>, cs: Seq<OpenAIStreamChoice>) -> Seq<PendingView>
    decreases cs.len(),
{
    if cs.len() == 0 {
        s
    } else {
        after_choice(after_choices(s, cs.drop_last()), cs.last())
    }
}

/// The chunk a choice is turned into, given the pending calls once its fragments are in: an
/// assistant message with the choice's text, carrying the gathered calls only when the
/// choice finishes and some call is pending; done when the choice finishes.
pub open spec fn choice_response(
    model: Seq<char>,
    created_at: Seq<char>,
    c: OpenAIStreamChoice,
    s: Seq<PendingView>,
) -> StreamResponseView {
    StreamResponseView {
        model,
        created_at,
        message: Some(
            MessageView {
                role: "assistant"@,
                content: match opt_text(c.delta.content) {
                    Some(t) => t,
                    None => Seq::empty(),
                },
                tool_calls: if c.finish_reason is Some && s.len() > 0 {
                    Some(pending_calls(s))
                } else {
                    None
                },
            },
        ),
        done: c.finish_reason is Some,
        total_duration: None,
        eval_count: None,
    }
}

/// The chunks the choices of an OpenAI-style chunk are turned into, one per choice.
pub open spec fn chunk_responses(
    model: Seq<char>,
    created_at: Seq<char>,
    s: Seq<PendingView>,
    cs: Seq<OpenAIStreamChoice>,
) -> Seq<StreamResponseView>
    decreases cs.len(),
{
    if cs.len() == 0 {
        Seq::empty()
    } else {
        chunk_responses(model, created_at, s, cs.drop_last()).push(
            choice_response(
                model,
                created_at,
                cs.last(),
                after_choice(after_choices(s, cs.drop_last()), cs.last()),
            ),
        )
    }
}

/// Gathers the fragments of one choice.
fn absorb_choice(acc: &mut ToolCallAccumulator, c: &OpenAIStreamChoice)
    requires
        old(acc).wf(),
    ensures
        final(acc).wf(),
        final(acc)@ == after_choice(old(acc)@, *c),
{
    match &c.delta.tool_calls {
        None => {},
        Some(tcs) => {
            let ghost s0 = acc@;
            let mut i: usize = 0;
            while i < tcs.len()
                invariant
                    i <= tcs@.len(),
                    acc.wf(),
                    acc@ == absorb_all(s0, tcs@.take(i as int)),
                decreases tcs.len() - i,
            {
                assert(tcs@.take(i + 1).drop_last() == tcs@.take(i as int));
                assert(tcs@.take(i + 1).last() == tcs@[i as int]);
                acc.absorb(&tcs[i]);
                i = i + 1;
            }
            assert(tcs@.take(tcs@.len() as int) == tcs@);
        },
    }
}

/// The chunk a choice is turned into, once its fragments are in.
fn response_for_choice(
    acc: &ToolCallAccumulator,
    model: &str,
    created_at: &str,
    c: &OpenAIStreamChoice,
) -> (r: OllamaStreamResponse)
    ensures
        r@ == choice_response(model@, created_at@, *c, acc@),
{
    let content = text_or_empty(&c.delta.content);
    let finished = c.finish_reason.is_some();
    let tool_calls = if finished && !acc.is_empty() {
        Some(acc.tool_calls())
    } else {
        None
    };
    let message = ChatMessage { role: owned("assistant"), content, tool_calls };
    OllamaStreamResponse {
        model: owned(model),
        created_at: owned(created_at),
        message: Some(message),
        done: finished,
        total_duration: None,
        eval_count: None,
    }
}

/// Turns an OpenAI-style chunk into Ollama-style chunks, one per choice, gathering the
/// tool-call fragments of each choice before its chunk is made.
pub fn convert_openai_chunk(
    acc: &mut ToolCallAccumulator,
    model: &str,
    created_at: &str,
    chunk: &OpenAIStreamResponse,
) -> (r: Vec<OllamaStreamResponse>)
    requires
        old(acc).wf(),
    ensures
        final(acc).wf(),
        final(acc)@ == after_choices(old(acc)@, chunk.choices@),
        responses_view(r@) == chunk_responses(model@, created_at@, old(acc)@, chunk.choices@),
{
    let ghost s0 = acc@;
    let cs = &chunk.choices;
    let mut r: Vec<OllamaStreamResponse> = Vec::new();
    let mut i: usize = 0;
    while i < cs.len()
        invariant
            i <= cs@.len(),
            acc.wf(),
            acc@ == after_choices(s0, cs@.take(i as int)),
            responses_view(r@) == chunk_responses(model@, created_at@, s0, cs@.take(i as int)),
        decreases cs.len() - i,
    {
        assert(cs@.take(i + 1).drop_last() == cs@.take(i as int));
        assert(cs@.take(i + 1).last() == cs@[i as int]);
        absorb_choice(acc, &cs[i]);
        let resp = response_for_choice(acc, model, created_at, &cs[i]);
        let ghost before = r@;
        r.push(resp);
        assert(responses_view(r@) =~= responses_view(before).push(resp@));
        i = i + 1;
    }
    assert(cs@.take(cs@.len() as int) == cs@);
    r
}

/// The RFC 3339 text that `chrono` writes for a time given in seconds and nanoseconds
/// since 1970, in UTC.
pub uninterp spec fn rfc3339_text(secs: int, nanos: int) -> Seq<char>;

/// `chrono::DateTime::<Utc>::from_timestamp` written out with `to_rfc3339`: the time
/// `secs` seconds and `nanos` nanoseconds after 1970 as RFC 3339 text, or `None` when
/// `from_timestamp` finds it out of its range (it returns `None` there, and writing a time
/// it accepted does not fail).
#[verifier::external_body]
fn rfc3339_at(secs: i64, nanos: u32) -> (r: Option<String>)
    ensures
        r matches Some(t) ==> t@ == rfc3339_text(secs as int, nanos as int),
{
    match chrono::DateTime::<chrono::Utc>::from_timestamp(secs, nanos) {
        Some(d) => Some(d.to_rfc3339()),
        None => None,
    }
}

/// The current time as RFC 3339 text, or `None` when the clock cannot be read as a time
/// after 1970 that `chrono` can hold.
fn now_rfc3339() -> (r: Option<String>)
    ensures
        r matches Some(t) ==> exists|s: int, n: int| t@ == rfc3339_text(s, n),
{
    match clock_since_epoch() {
        Some((secs, nanos)) => {
            if secs <= 0x7fff_ffff_ffff_ffff {
                rfc3339_at(secs as i64, nanos)
            } else {
                None
            }
        },
        None => None,
    }
}

/// Turns an OpenAI-style chunk into Ollama-style chunks stamped with the current time;
/// `None`, with nothing taken in, when the clock cannot be read.
pub fn convert_openai_chunk_now(
    acc: &mut ToolCallAccumulator,
    model: &str,
    chunk: &OpenAIStreamResponse,
) -> (r: Option<Vec<OllamaStreamResponse>>)
    requires
        old(acc).wf(),
    ensures
        final(acc).wf(),
        match r {
            Some(v) => {
                &&& final(acc)@ == after_choices(old(acc)@, chunk.choices@)
                &&& exists|s: int, n: int|
                    responses_view(v@) == chunk_responses(
                        model@,
                        rfc3339_text(s, n),
                        old(acc)@,
                        chunk.choices@,
                    )
            },
            None => final(acc)@ == old(acc)@,
        },
{
    match now_rfc3339() {
        Some(created_at) => {
            let r = convert_openai_chunk(acc, model, created_at.as_str(), chunk);
            Some(r)
        },
        None => None,
    }
}

/// A fragment for a call already pending changes that call alone: its id or name is
/// replaced when the fragment has one, and the fragment's argument text is appended.
pub proof fn lemma_fragment_extends_call(s: Seq<PendingView>, f: FragmentView, p: int)
    requires
        distinct_indices(s),
        0 <= p < s.len(),
        s[p].index == f.index,
    ensures
        absorb_one(s, f).len() == s.len(),
        absorb_one(s, f)[p] == apply_fragment(s[p], f),
        forall|q: int| 0 <= q < s.len() && q != p ==> absorb_one(s, f)[q] == s[q],
{
    assert(has_index(s, f.index));
    let c = choose|c: int| 0 <= c < s.len() && s[c].index == f.index;
    assert(c == p);
}

/// A fragment with a new index starts a call at the end, leaving the others as they were.
pub proof fn lemma_fragment_starts_call(s: Seq<PendingView>, f: FragmentView)
    requires
        !has_index(s, f.index),
    ensures
        absorb_one(s, f).len() == s.len() + 1,
        absorb_one(s, f).last().index == f.index,
        absorb_one(s, f).last().name == match f.name {
            Some(n) => n,
            None => Seq::<char>::empty(),
        },
        absorb_one(s, f).last().arguments == match f.arguments {
            Some(a) => a,
            None => Seq::<char>::empty(),
        },
        absorb_one(s, f).drop_last() == s,
{
    assert(absorb_one(s, f).drop_last() =~= s);
}

/// Every choice of an OpenAI-style chunk becomes one Ollama-style chunk, in order: an
/// assistant message whose text is the choice's delta text (empty when it has none),
/// whether or not the choice finishes, done exactly when the choice has a finish reason.
pub proof fn lemma_choice_text_kept(
    model: Seq<char>,
    created_at: Seq<char>,
    s: Seq<PendingView>,
    cs: Seq<OpenAIStreamChoice>,
)
    ensures
        chunk_responses(model, created_at, s, cs).len() == cs.len(),
        forall|i: int|
            0 <= i < cs.len() ==> {
                let r = #[trigger] chunk_responses(model, created_at, s, cs)[i];
                &&& r.done == (cs[i].finish_reason is Some)
                &&& r.message matches Some(m) && m.role == "assistant"@ && m.content == match cs[i].delta.content {
                    Some(t) => t@,
                    None => Seq::<char>::empty(),
                }
            },
    decreases cs.len(),
{
    if cs.len() > 0 {
        lemma_choice_text_kept(model, created_at, s, cs.drop_last());
        assert forall|i: int| 0 <= i < cs.len() implies {
            let r = #[trigger] chunk_responses(model, created_at, s, cs)[i];
            &&& r.done == (cs[i].finish_reason is Some)
            &&& r.message matches Some(m) && m.role == "assistant"@ && m.content == match cs[i].delta.content {
                Some(t) => t@,
                None => Seq::<char>::empty(),
            }
        } by {
            if i < cs.len() - 1 {
                assert(cs.drop_last()[i] == cs[i]);
                assert(chunk_responses(model, created_at, s, cs)[i] == chunk_responses(
                    model,
                    created_at,
                    s,
                    cs.drop_last(),
                )[i]);
            }
        }
    }
}

} // verus!
