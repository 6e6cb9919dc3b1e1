//! The bookkeeping of a tool-calling exchange: a streamed reply assembled
//! from its deltas, and the conversation and tool list kept across rounds.
//! Talking to the model and running the tools belong to the caller.

use vstd::prelude::*;
use crate::chat::{ChatMessage, Delta, FunctionCall, MessageRole, ToolCall};
use crate::function_calling::{FunctionCallingResult, ToolInfo, MAX_TOOL_ITERATIONS};
use crate::text::{trim, trim_seq};

verus! {

pub open spec fn opt_text(o: Option<String>) -> Option<Seq<char>> {
    match o {
        Some(s) => Some(s@),
        None => None,
    }
}

/// A tool call as plain values: identifier, type, function name, arguments
/// and index.
pub struct CallModel {
    pub id: Option<Seq<char>>,
    pub call_type: Option<Seq<char>>,
    pub name: Seq<char>,
    pub arguments: Seq<char>,
    pub index: Option<u32>,
}

pub open spec fn call_model(c: ToolCall) -> CallModel {
    CallModel {
        id: opt_text(c.id),
        call_type: opt_text(c.call_type),
        name: c.function.name@,
        arguments: c.function.arguments@,
        index: c.index,
    }
}

pub open spec fn call_models(cs: Seq<ToolCall>) -> Seq<CallModel> {
    cs.map_values(|c: ToolCall| call_model(c))
}

fn copy_opt(o: &Option<String>) -> (r: Option<String>)
    ensures
        opt_text(r) == opt_text(*o),
{
    match o {
        Some(s) => Some(s.clone()),
        None => None,
    }
}

fn copy_call(c: &ToolCall) -> (r: ToolCall)
    ensures
        call_model(r) == call_model(*c),
{
    ToolCall {
        id: copy_opt(&c.id),
        call_type: copy_opt(&c.call_type),
        function: FunctionCall { name: c.function.name.clone(), arguments: c.function.arguments.clone() },
        index: c.index,
    }
}

// ---------------------------------------------------------------------------
// A streamed reply
// ---------------------------------------------------------------------------

/// What has arrived of a streamed reply: its text and the tool calls it
/// asks for, assembled by index.
#[derive(Debug, Clone)]
pub struct StreamedReply {
    pub content: String,
    pub calls: Vec<ToolCall>,
}

/// The text a delta adds: its content when that is not blank, else its
/// reasoning.
pub open spec fn delta_text(d: Delta) -> Option<Seq<char>> {
    match d.content {
        Some(c) if trim_seq(c@).len() > 0 => Some(c@),
        _ => opt_text(d.reasoning_content),
    }
}

/// An empty call made to reach index `idx` (it carries that index).
pub open spec fn padding_call(idx: int) -> CallModel {
    CallModel { id: None, call_type: Some("function"@), name: Seq::empty(), arguments: Seq::empty(), index: Some(idx as u32) }
}

/// The index a delta call is for (0 when it names none).
pub open spec fn delta_index(d: ToolCall) -> int {
    match d.index {
        Some(i) => i as int,
        None => 0,
    }
}

/// The calls grown with empty calls until index `idx` exists.
pub open spec fn padded(buf: Seq<CallModel>, idx: int) -> Seq<CallModel> {
    if buf.len() <= idx { buf + Seq::new((idx + 1 - buf.len()) as nat, |j: int| padding_call(idx)) } else { buf }
}

/// The calls after a delta call: the call at its index gets the delta's
/// identifier when it has one, and the delta's name and argument text
/// appended.
pub open spec fn merged(buf: Seq<CallModel>, d: ToolCall) -> Seq<CallModel> {
    let idx = delta_index(d);
    let p = padded(buf, idx);
    let c = p[idx];
    p.update(idx, CallModel {
        id: if d.id is Some { opt_text(d.id) } else { c.id },
        call_type: c.call_type,
        name: c.name + d.function.name@,
        arguments: c.arguments + d.function.arguments@,
        index: c.index,
    })
}

/// The calls after a run of delta calls.
pub open spec fn merged_all(buf: Seq<CallModel>, ds: Seq<ToolCall>) -> Seq<CallModel>
    decreases ds.len(),
{
    if ds.len() == 0 { buf } else { merged(merged_all(buf, ds.drop_last()), ds.last()) }
}

impl StreamedReply {
    /// Nothing has arrived yet.
    pub fn new() -> (r: Self)
        ensures
            r.content@ == Seq::<char>::empty(),
            r.calls@.len() == 0,
    {
        StreamedReply { content: String::new(), calls: Vec::new() }
    }

    fn merge_call(&mut self, d: &ToolCall)
        ensures
            call_models(final(self).calls@) == merged(call_models(old(self).calls@), *d),
            final(self).content == old(self).content,
    {
        let idx: usize = match d.index {
            Some(i) => i as usize,
            None => 0,
        };
        let ghost start = call_models(self.calls@);
        while self.calls.len() <= idx
            invariant
                self.content == old(self).content,
                start == call_models(old(self).calls@),
                idx as int == delta_index(*d),
                self.calls@.len() <= start.len() ==> call_models(self.calls@) == start,
                self.calls@.len() > start.len() ==> start.len() <= idx && self.calls@.len() <= idx + 1
                    && call_models(self.calls@) == start + Seq::new((self.calls@.len() - start.len()) as nat, |j: int| padding_call(idx as int)),
                self.calls@.len() >= start.len(),
            decreases idx + 1 - self.calls@.len(),
        {
            let ghost before = call_models(self.calls@);
            let p = ToolCall {
                id: None,
                call_type: Some(String::from_str("function")),
                function: FunctionCall { name: String::new(), arguments: String::new() },
                index: Some(idx as u32),
            };
            self.calls.push(p);
            assert(call_model(p) == padding_call(idx as int));
            assert(call_models(self.calls@) =~= before.push(call_model(p)));
            assert(call_models(self.calls@) =~= start + Seq::new((self.calls@.len() - start.len()) as nat, |j: int| padding_call(idx as int)));
        }
        proof {
            if start.len() > idx {
                assert(call_models(self.calls@) == start);
                assert(padded(start, idx as int) == start);
            } else {
                assert(self.calls@.len() == idx + 1);
                assert(padded(start, idx as int) =~= call_models(self.calls@));
            }
        }
        let c = &self.calls[idx];
        let mut name = c.function.name.clone();
        name.append(d.function.name.as_str());
        let mut arguments = c.function.arguments.clone();
        arguments.append(d.function.arguments.as_str());
        let id = match &d.id {
            Some(x) => Some(x.clone()),
            None => copy_opt(&c.id),
        };
        let updated = ToolCall { id, call_type: copy_opt(&c.call_type), function: FunctionCall { name, arguments }, index: c.index };
        let ghost before = self.calls@;
        self.calls.set(idx, updated);
        assert(call_models(self.calls@) =~= call_models(before).update(idx as int, call_model(updated)));
    }

    /// Takes in one delta of the stream: its text is appended (and returned,
    /// to be shown), its tool calls merged by index.
    pub fn absorb(&mut self, delta: &Delta) -> (shown: Option<String>)
        ensures
            opt_text(shown) == delta_text(*delta),
            final(self).content@ == old(self).content@ + (match delta_text(*delta) { Some(t) => t, None => Seq::empty() }),
            call_models(final(self).calls@) == (match delta.tool_calls {
                Some(ds) => merged_all(call_models(old(self).calls@), ds@),
                None => call_models(old(self).calls@),
            }),
    {
        let text: Option<String> = match &delta.content {
            Some(c) => if trim(c.as_str()).len() > 0 { Some(c.clone()) } else { copy_opt(&delta.reasoning_content) },
            None => copy_opt(&delta.reasoning_content),
        };
        match &text {
            Some(t) => self.content.append(t.as_str()),
            None => {},
        }
        proof {
            if text is None {
                assert(self.content@ =~= old(self).content@ + Seq::<char>::empty());
            }
        }
        match &delta.tool_calls {
            Some(ds) => {
                let mut i: usize = 0;
                while i < ds.len()
                    invariant
                        i <= ds.len(),
                        self.content@ == old(self).content@ + (match delta_text(*delta) { Some(t) => t, None => Seq::empty() }),
                        call_models(self.calls@) == merged_all(call_models(old(self).calls@), ds@.take(i as int)),
                    decreases ds.len() - i,
                {
                    assert(ds@.take(i as int + 1).drop_last() =~= ds@.take(i as int));
                    self.merge_call(&ds[i]);
                    i += 1;
                }
                assert(ds@.take(ds.len() as int) =~= ds@);
            },
            None => {},
        }
        text
    }

    /// The reply as a message of the conversation: the assistant's text,
    /// with its calls when it asked for any.
    pub fn into_message(self) -> (m: ChatMessage)
        ensures
            m.role == MessageRole::Assistant,
            m.content == self.content,
            m.reasoning_content is None,
            m.tool_call_id is None,
            self.calls@.len() == 0 ==> m.tool_calls is None,
            self.calls@.len() > 0 ==> m.tool_calls == Some(self.calls),
    {
        let calls = if self.calls.len() == 0 { None } else { Some(self.calls) };
        ChatMessage { role: MessageRole::Assistant, content: self.content, reasoning_content: None, tool_call_id: None, tool_calls: calls }
    }
}

// ---------------------------------------------------------------------------
// Rounds of an exchange
// ---------------------------------------------------------------------------

/// The conversation of an exchange, the tools used so far, and how many
/// rounds have run.
pub struct ToolLoop {
    pub messages: Vec<ChatMessage>,
    pub tools_used: Vec<ToolInfo>,
    pub iteration: usize,
}

/// A message as role, text and the call it answers.
pub open spec fn turn_of(m: ChatMessage) -> (MessageRole, Seq<char>, Option<Seq<char>>) {
    (m.role, m.content@, opt_text(m.tool_call_id))
}

pub open spec fn turns_of(ms: Seq<ChatMessage>) -> Seq<(MessageRole, Seq<char>, Option<Seq<char>>)> {
    ms.map_values(|m: ChatMessage| turn_of(m))
}

pub open spec fn info_view(t: ToolInfo) -> (Seq<char>, Seq<char>) {
    (t.name@, t.arguments@)
}

pub open spec fn info_views(ts: Seq<ToolInfo>) -> Seq<(Seq<char>, Seq<char>)> {
    ts.map_values(|t: ToolInfo| info_view(t))
}

/// The answer that stands for a tool refused for want of MegaBoss
/// privilege.
pub open spec fn megaboss_refusal() -> Seq<char> {
    "Privilegio MegaBoss requerido para esta herramienta."@
}

fn tool_message(content: String, call_id: Option<String>) -> (m: ChatMessage)
    ensures
        m.role == MessageRole::Tool,
        m.content == content,
        opt_text(m.tool_call_id) == opt_text(call_id),
{
    ChatMessage { role: MessageRole::Tool, content, reasoning_content: None, tool_call_id: call_id, tool_calls: None }
}

impl ToolLoop {
    /// An exchange over a conversation, before its first round.
    pub fn new(messages: Vec<ChatMessage>) -> (r: Self)
        ensures
            r.messages == messages,
            r.tools_used@.len() == 0,
            r.iteration == 0,
    {
        ToolLoop { messages, tools_used: Vec::new(), iteration: 0 }
    }

    /// Whether another round may run (at most `MAX_TOOL_ITERATIONS`).
    pub fn has_rounds_left(&self) -> (r: bool)
        ensures
            r == (self.iteration < MAX_TOOL_ITERATIONS),
    {
        self.iteration < MAX_TOOL_ITERATIONS
    }

    /// Adds the model's reply to the conversation.
    pub fn push_reply(&mut self, reply: ChatMessage)
        ensures
            final(self).messages@ == old(self).messages@.push(reply),
            final(self).tools_used == old(self).tools_used,
            final(self).iteration == old(self).iteration,
    {
        self.messages.push(reply);
    }

    /// Records that a call's tool is used, with its arguments.
    pub fn note_tool(&mut self, call: &ToolCall)
        ensures
            info_views(final(self).tools_used@) == info_views(old(self).tools_used@).push((call.function.name@, call.function.arguments@)),
            final(self).messages == old(self).messages,
            final(self).iteration == old(self).iteration,
    {
        let ghost before = self.tools_used@;
        let info = ToolInfo { name: call.function.name.clone(), arguments: call.function.arguments.clone() };
        self.tools_used.push(info);
        assert(info_views(self.tools_used@) =~= info_views(before).push(info_view(info)));
    }

    /// Answers a call refused for want of MegaBoss privilege.
    pub fn refuse_call(&mut self, call: &ToolCall)
        ensures
            turns_of(final(self).messages@) == turns_of(old(self).messages@).push((MessageRole::Tool, megaboss_refusal(), opt_text(call.id))),
            final(self).tools_used == old(self).tools_used,
            final(self).iteration == old(self).iteration,
    {
        let ghost before = self.messages@;
        let m = tool_message(String::from_str("Privilegio MegaBoss requerido para esta herramienta."), copy_opt(&call.id));
        self.messages.push(m);
        assert(turns_of(self.messages@) =~= turns_of(before).push(turn_of(m)));
    }

    /// Lets a call the model asked for through, or refuses it: a tool
    /// reserved to the owner is refused while MegaBoss mode is locked, and
    /// the call is then answered with the refusal and must not run. Returns
    /// whether the call is to be run.
    pub fn gate_call(&mut self, call: &ToolCall, owner_only: bool, unlocked: bool) -> (run: bool)
        ensures
            run == !(owner_only && !unlocked),
            run ==> final(self).messages == old(self).messages,
            !run ==> turns_of(final(self).messages@) == turns_of(old(self).messages@).push((MessageRole::Tool, megaboss_refusal(), opt_text(call.id))),
            final(self).tools_used == old(self).tools_used,
            final(self).iteration == old(self).iteration,
    {
        if owner_only && !unlocked {
            self.refuse_call(call);
            false
        } else {
            true
        }
    }

    /// Answers a call with its tool's result and then the verification
    /// report; the report answers the call too when `report_answers_call`
    /// holds.
    pub fn answer_call(&mut self, call: &ToolCall, success: bool, output: &str, error: &Option<String>, verification_message: &str, report_answers_call: bool)
        ensures
            turns_of(final(self).messages@) == turns_of(old(self).messages@)
                .push((MessageRole::Tool,
                    if success { output@ } else { match *error { Some(e) => e@, None => "Error desconocido"@ } },
                    opt_text(call.id)))
                .push((MessageRole::Tool, verification_message@, if report_answers_call { opt_text(call.id) } else { None })),
            final(self).tools_used == old(self).tools_used,
            final(self).iteration == old(self).iteration,
    {
        let ghost before = self.messages@;
        let content = crate::function_calling::tool_message_content(success, output, error);
        let first = tool_message(content, copy_opt(&call.id));
        self.messages.push(first);
        let second = tool_message(String::from_str(verification_message), if report_answers_call { copy_opt(&call.id) } else { None });
        self.messages.push(second);
        assert(turns_of(self.messages@) =~= turns_of(before).push(turn_of(first)).push(turn_of(second)));
    }

    /// Ends a round.
    pub fn end_round(&mut self)
        requires
            old(self).iteration < MAX_TOOL_ITERATIONS,
        ensures
            final(self).iteration == old(self).iteration + 1,
            final(self).messages == old(self).messages,
            final(self).tools_used == old(self).tools_used,
    {
        self.iteration = self.iteration + 1;
    }

    /// Ends the exchange with an answer and the tools used.
    pub fn finish(self, response: String) -> (r: FunctionCallingResult)
        ensures
            r.response == response,
            r.tools_used == self.tools_used,
    {
        FunctionCallingResult { response, tools_used: self.tools_used }
    }
}

} // verus!
