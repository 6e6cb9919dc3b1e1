//! Preparing a conversation for a local model: one system text folded into
//! the first user turn, a short list of relevant tools, and turns that
//! strictly alternate between user and assistant.

use vstd::prelude::*;
use crate::chat::{ChatMessage, FunctionCall, MessageRole, ToolCall};
use crate::specialty_agent::{agent_normalize_spec, preferred_tools_for_message, preferred_tools_spec};
use crate::text::{chars_of, contains, find_first, find_from, occurs_at, seq_contains, str_eq, string_from_chars, trim, trim_chars, trim_seq, views_of};
use crate::tool_catalog::ToolDefinition;
use crate::assistant::opt_text;
use crate::encryption::{random_bytes, rng_failure};
use crate::ingest::{hex_text, lemma_hex_text_shape};

verus! {

/// How many non-system messages a local model is shown.
pub const LOCAL_HISTORY_LIMIT: usize = 12;

/// How many tools a local model is offered.
pub const TOOL_SHORTLIST_LIMIT: usize = 12;

/// What a tool-calling exchange produced: the final answer and the tools it
/// used.
#[derive(Debug, Clone)]
pub struct FunctionCallingResult {
    pub response: String,
    pub tools_used: Vec<ToolInfo>,
}

/// A tool used during an exchange, with its arguments as JSON text.
#[derive(Debug, Clone)]
pub struct ToolInfo {
    pub name: String,
    pub arguments: String,
}

// ---------------------------------------------------------------------------
// Tool shortlist
// ---------------------------------------------------------------------------

/// A tool definition as plain text: name, description, argument schema.
pub open spec fn def_view(d: ToolDefinition) -> (Seq<char>, Seq<char>, Seq<char>) {
    (d.name@, d.description@, d.parameters@)
}

/// The plain views of a list of tool definitions.
pub open spec fn def_views(ds: Seq<ToolDefinition>) -> Seq<(Seq<char>, Seq<char>, Seq<char>)> {
    ds.map_values(|d: ToolDefinition| def_view(d))
}

/// The first definition named `name` at or after position `i`.
pub open spec fn find_def(defs: Seq<(Seq<char>, Seq<char>, Seq<char>)>, name: Seq<char>, i: int) -> Option<(Seq<char>, Seq<char>, Seq<char>)>
    decreases defs.len() - i,
{
    if i < 0 || i >= defs.len() {
        None
    } else if defs[i].0 == name {
        Some(defs[i])
    } else {
        find_def(defs, name, i + 1)
    }
}

/// The definitions of the named tools, in the order of the names, skipping
/// names the catalog lacks and stopping at the shortlist limit.
pub open spec fn shortlist_picks(defs: Seq<(Seq<char>, Seq<char>, Seq<char>)>, names: Seq<Seq<char>>) -> Seq<(Seq<char>, Seq<char>, Seq<char>)>
    decreases names.len(),
{
    if names.len() == 0 {
        Seq::empty()
    } else {
        let prev = shortlist_picks(defs, names.drop_last());
        if prev.len() >= TOOL_SHORTLIST_LIMIT {
            prev
        } else {
            match find_def(defs, names.last(), 0) {
                Some(d) => prev.push(d),
                None => prev,
            }
        }
    }
}

/// The tools offered for a message: the catalog's definitions of the tools
/// preferred for it; when none of them is in the catalog, the catalog's first
/// definitions, up to the limit.
pub open spec fn shortlist_spec(defs: Seq<(Seq<char>, Seq<char>, Seq<char>)>, msg: Seq<char>) -> Seq<(Seq<char>, Seq<char>, Seq<char>)> {
    shortlist_of(defs, preferred_tools_spec(agent_normalize_spec(msg)))
}

/// The shortlist drawn from the catalog for tools named in order of
/// preference: the named tools the catalog has, at most the limit, or the
/// head of the catalog when it has none of them.
pub open spec fn shortlist_of(defs: Seq<(Seq<char>, Seq<char>, Seq<char>)>, names: Seq<Seq<char>>) -> Seq<(Seq<char>, Seq<char>, Seq<char>)> {
    let picks = shortlist_picks(defs, names);
    if picks.len() == 0 {
        defs.take(if defs.len() < TOOL_SHORTLIST_LIMIT { defs.len() as int } else { TOOL_SHORTLIST_LIMIT as int })
    } else {
        picks
    }
}

fn copy_definition(d: &ToolDefinition) -> (res: ToolDefinition)
    ensures
        def_view(res) == def_view(*d),
{
    ToolDefinition { name: d.name.clone(), description: d.description.clone(), parameters: d.parameters.clone() }
}

fn find_definition(definitions: &[ToolDefinition], name: &str) -> (res: Option<usize>)
    ensures
        res matches Some(k) ==> k < definitions.len() && find_def(def_views(definitions@), name@, 0) == Some(def_view(definitions@[k as int])),
        res is None ==> find_def(def_views(definitions@), name@, 0) is None,
{
    let ghost defs = def_views(definitions@);
    let mut j: usize = 0;
    while j < definitions.len()
        invariant
            j <= definitions.len(),
            defs == def_views(definitions@),
            find_def(defs, name@, 0) == find_def(defs, name@, j as int),
        decreases definitions.len() - j,
    {
        if str_eq(definitions[j].name.as_str(), name) {
            return Some(j);
        }
        j += 1;
    }
    None
}

/// The tools to offer a local model for the last user message.
pub fn build_tool_shortlist(last_user_message: &str, definitions: &[ToolDefinition]) -> (res: Vec<ToolDefinition>)
    ensures
        def_views(res@) == shortlist_spec(def_views(definitions@), last_user_message@),
{
    let priority = preferred_tools_for_message(last_user_message);
    shortlist_for_tools(&priority, definitions)
}

/// The shortlist drawn from the catalog for tools named in order of
/// preference.
pub fn shortlist_for_tools(priority: &Vec<&str>, definitions: &[ToolDefinition]) -> (res: Vec<ToolDefinition>)
    ensures
        def_views(res@) == shortlist_of(def_views(definitions@), views_of(priority@)),
{
    let ghost defs = def_views(definitions@);
    let ghost names = views_of(priority@);
    let mut selected: Vec<ToolDefinition> = Vec::new();
    let mut i: usize = 0;
    while i < priority.len()
        invariant
            i <= priority.len(),
            defs == def_views(definitions@),
            names == views_of(priority@),
            def_views(selected@) == shortlist_picks(defs, names.take(i as int)),
        decreases priority.len() - i,
    {
        assert(names.take(i as int + 1).drop_last() =~= names.take(i as int));
        if selected.len() < TOOL_SHORTLIST_LIMIT {
            if let Some(k) = find_definition(definitions, priority[i]) {
                let d = copy_definition(&definitions[k]);
                selected.push(d);
                assert(def_views(selected@) =~= shortlist_picks(defs, names.take(i as int)).push(def_view(d)));
            }
        }
        i += 1;
    }
    assert(names.take(priority.len() as int) =~= names);
    if selected.len() == 0 {
        let mut k: usize = 0;
        while k < definitions.len() && k < TOOL_SHORTLIST_LIMIT
            invariant
                k <= definitions.len(),
                k <= TOOL_SHORTLIST_LIMIT,
                defs == def_views(definitions@),
                def_views(selected@) =~= defs.take(k as int),
            decreases definitions.len() - k,
        {
            let d = copy_definition(&definitions[k]);
            let ghost before = selected@;
            selected.push(d);
            assert(selected@ == before.push(d));
            assert(def_views(selected@) =~= def_views(before).push(def_view(d)));
            assert(defs[k as int] == def_view(definitions@[k as int]));
            assert(def_views(selected@) =~= defs.take(k as int + 1));
            k += 1;
        }
    }
    selected
}

/// The shortlist never exceeds its limit, and it is empty only when the
/// catalog is.
pub proof fn lemma_shortlist_bounded(defs: Seq<(Seq<char>, Seq<char>, Seq<char>)>, msg: Seq<char>)
    ensures
        shortlist_spec(defs, msg).len() <= TOOL_SHORTLIST_LIMIT,
        shortlist_spec(defs, msg).len() == 0 <==> defs.len() == 0,
{
    lemma_picks_bounded(defs, preferred_tools_spec(agent_normalize_spec(msg)));
}

proof fn lemma_picks_bounded(defs: Seq<(Seq<char>, Seq<char>, Seq<char>)>, names: Seq<Seq<char>>)
    ensures
        shortlist_picks(defs, names).len() <= TOOL_SHORTLIST_LIMIT,
        shortlist_picks(defs, names).len() > 0 ==> defs.len() > 0,
    decreases names.len(),
{
    if names.len() > 0 {
        lemma_picks_bounded(defs, names.drop_last());
        lemma_find_def_in(defs, names.last(), 0);
    }
}

proof fn lemma_find_def_in(defs: Seq<(Seq<char>, Seq<char>, Seq<char>)>, name: Seq<char>, i: int)
    ensures
        find_def(defs, name, i) is Some ==> defs.len() > 0,
    decreases defs.len() - i,
{
    if 0 <= i < defs.len() && defs[i].0 != name {
        lemma_find_def_in(defs, name, i + 1);
    }
}

// ---------------------------------------------------------------------------
// Conversation shaping
// ---------------------------------------------------------------------------

/// A message as a turn: its role and its text.
pub open spec fn turn(m: ChatMessage) -> (MessageRole, Seq<char>) {
    (m.role, m.content@)
}

/// The turns of a list of messages.
pub open spec fn turns(ms: Seq<ChatMessage>) -> Seq<(MessageRole, Seq<char>)> {
    ms.map_values(|m: ChatMessage| turn(m))
}

/// A message that carries only a role and a text.
pub open spec fn is_plain(m: ChatMessage) -> bool {
    m.reasoning_content is None && m.tool_call_id is None && m.tool_calls is None
}

/// The system messages' texts, joined by blank lines (no separator while the
/// text so far is empty).
pub open spec fn system_text(ms: Seq<ChatMessage>) -> Seq<char>
    decreases ms.len(),
{
    if ms.len() == 0 {
        Seq::empty()
    } else {
        let prev = system_text(ms.drop_last());
        if ms.last().role == MessageRole::System {
            if prev.len() == 0 { ms.last().content@ } else { prev + "\n\n"@ + ms.last().content@ }
        } else {
            prev
        }
    }
}

/// The messages that are not system messages, in order.
pub open spec fn non_system(ms: Seq<ChatMessage>) -> Seq<ChatMessage>
    decreases ms.len(),
{
    if ms.len() == 0 {
        Seq::empty()
    } else if ms.last().role == MessageRole::System {
        non_system(ms.drop_last())
    } else {
        non_system(ms.drop_last()).push(ms.last())
    }
}

/// The last messages of a history, up to the local limit.
pub open spec fn recent(ms: Seq<ChatMessage>) -> Seq<ChatMessage> {
    if ms.len() > LOCAL_HISTORY_LIMIT { ms.skip(ms.len() - LOCAL_HISTORY_LIMIT) } else { ms }
}

/// The text of the last user message, or the empty text.
pub open spec fn last_user_content(ms: Seq<ChatMessage>) -> Seq<char>
    decreases ms.len(),
{
    if ms.len() == 0 {
        Seq::empty()
    } else if ms.last().role == MessageRole::User {
        ms.last().content@
    } else {
        last_user_content(ms.drop_last())
    }
}

/// One line per offered tool: `- name: description`.
pub open spec fn tool_lines(defs: Seq<(Seq<char>, Seq<char>, Seq<char>)>) -> Seq<char>
    decreases defs.len(),
{
    if defs.len() == 0 {
        Seq::empty()
    } else {
        tool_lines(defs.drop_last()) + "- "@ + defs.last().0 + ": "@ + defs.last().1 + "\n"@
    }
}

/// The instructions that offer tools to a local model.
pub open spec fn tool_block(defs: Seq<(Seq<char>, Seq<char>, Seq<char>)>) -> Seq<char> {
    "\n\n[INSTRUCCIONES TÃ‰CNICAS - HERRAMIENTAS]:\n"@ + "Responde con JSON de una sola herramienta cuando sea necesario.\n"@ + "Formato: {\"name\":\"tool_name\",\"arguments\":{...}}\n"@ + "Herramientas relevantes para ESTA consulta:\n"@ + tool_lines(defs) + "Si usas herramienta, devuelve solo el JSON de llamada sin texto extra.\n"@
}

/// The system text, with the tool instructions when tools are offered.
pub open spec fn system_with_tools(ms: Seq<ChatMessage>, include_tools: bool, defs: Seq<(Seq<char>, Seq<char>, Seq<char>)>) -> Seq<char> {
    let tools = shortlist_spec(defs, last_user_content(recent(non_system(ms))));
    if include_tools && tools.len() > 0 {
        system_text(ms) + tool_block(tools)
    } else {
        system_text(ms)
    }
}

/// The turn a message becomes: a tool result is handed back as a user turn
/// that explains it; a blank text becomes a placeholder.
pub open spec fn local_turn(m: ChatMessage) -> (MessageRole, Seq<char>) {
    let role = if m.role == MessageRole::Tool { MessageRole::User } else { m.role };
    let content = if m.role == MessageRole::Tool { "\n[RESULTADO DE LA HERRAMIENTA]:\n"@ + m.content@ + "\n---\nEste es el resultado de la herramienta que solicitaste. NO vuelvas a ejecutar la misma herramienta. Por favor, lee esta informaciÃ³n y explÃ­casela al usuario en lenguaje natural, claro y conciso."@ } else { m.content@ };
    if trim_seq(content).len() == 0 {
        (role, if role == MessageRole::Assistant { "[Procesando...]"@ } else { "(Sin contenido)"@ })
    } else {
        (role, content)
    }
}

/// Consecutive turns of one role merged into one, their texts joined by a
/// blank line.
pub open spec fn merge_turns(ts: Seq<(MessageRole, Seq<char>)>) -> Seq<(MessageRole, Seq<char>)>
    decreases ts.len(),
{
    if ts.len() == 0 {
        Seq::empty()
    } else {
        let prev = merge_turns(ts.drop_last());
        let t = ts.last();
        if prev.len() > 0 && prev.last().0 == t.0 {
            prev.update(prev.len() - 1, (t.0, prev.last().1 + "\n\n"@ + t.1))
        } else {
            prev.push(t)
        }
    }
}

/// The recent non-system messages as merged turns.
pub open spec fn fused_turns(ms: Seq<ChatMessage>) -> Seq<(MessageRole, Seq<char>)> {
    merge_turns(recent(non_system(ms)).map_values(|m: ChatMessage| local_turn(m)))
}

/// The turns with a user turn first and the system text folded into it.
pub open spec fn opening_turns(fused: Seq<(MessageRole, Seq<char>)>, sys: Seq<char>) -> Seq<(MessageRole, Seq<char>)> {
    if fused.len() == 0 {
        seq![(MessageRole::User, "[SISTEMA]: "@ + sys + "\n\nHola, KERNEL IA."@)]
    } else {
        let g = if fused[0].0 != MessageRole::User { seq![(MessageRole::User, "Hola. Por favor presÃ©ntate y prepÃ¡rate para ayudarme."@)] + fused } else { fused };
        if sys.len() > 0 {
            g.update(0, (MessageRole::User, "[INSTRUCCIONES DE SISTEMA]:\n"@ + sys + "\n\n[MENSAJE]:\n"@ + g[0].1))
        } else {
            g
        }
    }
}

/// The turns, with a user turn appended after a final assistant turn.
pub open spec fn closing_turns(ts: Seq<(MessageRole, Seq<char>)>) -> Seq<(MessageRole, Seq<char>)> {
    if ts.len() > 0 && ts.last().0 == MessageRole::Assistant {
        ts.push((MessageRole::User, "ContinÃºa con el diagnÃ³stico o genera tu conclusiÃ³n final."@))
    } else {
        ts
    }
}

/// The conversation a local model is shown.
pub open spec fn local_history_spec(ms: Seq<ChatMessage>, include_tools: bool, defs: Seq<(Seq<char>, Seq<char>, Seq<char>)>) -> Seq<(MessageRole, Seq<char>)> {
    if ms.len() == 0 {
        Seq::empty()
    } else {
        closing_turns(merge_turns(opening_turns(fused_turns(ms), system_with_tools(ms, include_tools, defs))))
    }
}

fn plain(role: MessageRole, content: String) -> (res: ChatMessage)
    ensures
        turn(res) == (role, content@),
        is_plain(res),
{
    ChatMessage { role, content, reasoning_content: None, tool_call_id: None, tool_calls: None }
}

fn join_blank_line(a: &String, b: &String) -> (res: String)
    ensures
        res@ == a@ + "\n\n"@ + b@,
{
    let mut out = a.clone();
    out.append("\n\n");
    out.append(b.as_str());
    out
}

fn collect_system_text(messages: &[ChatMessage]) -> (res: String)
    ensures
        res@ == system_text(messages@),
{
    let mut out = String::new();
    let mut i: usize = 0;
    while i < messages.len()
        invariant
            i <= messages.len(),
            out@ == system_text(messages@.take(i as int)),
        decreases messages.len() - i,
    {
        assert(messages@.take(i as int + 1).drop_last() =~= messages@.take(i as int));
        if messages[i].role == MessageRole::System {
            if out.as_str().is_empty() {
                out = messages[i].content.clone();
            } else {
                out = join_blank_line(&out, &messages[i].content);
            }
        }
        i += 1;
    }
    assert(messages@.take(messages.len() as int) =~= messages@);
    out
}

fn copy_message(m: &ChatMessage) -> (res: ChatMessage)
    ensures
        res.role == m.role,
        res.content@ == m.content@,
{
    ChatMessage { role: m.role, content: m.content.clone(), reasoning_content: None, tool_call_id: None, tool_calls: None }
}

fn collect_recent(messages: &[ChatMessage]) -> (res: Vec<ChatMessage>)
    ensures
        turns(res@) == turns(recent(non_system(messages@))),
{
    let mut others: Vec<ChatMessage> = Vec::new();
    let mut i: usize = 0;
    while i < messages.len()
        invariant
            i <= messages.len(),
            turns(others@) == turns(non_system(messages@.take(i as int))),
            others@.len() == non_system(messages@.take(i as int)).len(),
        decreases messages.len() - i,
    {
        assert(messages@.take(i as int + 1).drop_last() =~= messages@.take(i as int));
        if messages[i].role != MessageRole::System {
            let c = copy_message(&messages[i]);
            proof {
                let ns = non_system(messages@.take(i as int));
                assert(turns(ns.push(messages@[i as int])) =~= turns(ns).push(turn(messages@[i as int])));
            }
            others.push(c);
            assert(turns(others@) =~= turns(non_system(messages@.take(i as int))).push(turn(c)));
        }
        i += 1;
    }
    assert(messages@.take(messages.len() as int) =~= messages@);
    let ghost ns = non_system(messages@);
    if others.len() > LOCAL_HISTORY_LIMIT {
        let from = others.len() - LOCAL_HISTORY_LIMIT;
        let mut kept: Vec<ChatMessage> = Vec::new();
        let mut k: usize = from;
        while k < others.len()
            invariant
                from <= k <= others.len(),
                from == others.len() - LOCAL_HISTORY_LIMIT,
                turns(others@) == turns(ns),
                others@.len() == ns.len(),
                turns(kept@) =~= turns(others@).subrange(from as int, k as int),
            decreases others.len() - k,
        {
            let c = copy_message(&others[k]);
            let ghost before = kept@;
            assert(turns(others@)[k as int] == turn(others@[k as int]));
            kept.push(c);
            assert(kept@ == before.push(c));
            assert(turns(kept@) =~= turns(before).push(turn(c)));
            assert(turns(kept@) =~= turns(others@).subrange(from as int, k as int + 1));
            k += 1;
        }
        assert(turns(ns.skip(ns.len() - LOCAL_HISTORY_LIMIT)) =~= turns(ns).subrange(from as int, ns.len() as int));
        kept
    } else {
        others
    }
}

fn find_last_user(ms: &Vec<ChatMessage>) -> (res: String)
    ensures
        res@ == last_user_content(ms@),
{
    let mut i: usize = ms.len();
    assert(ms@.take(ms.len() as int) =~= ms@);
    while i > 0
        invariant
            i <= ms.len(),
            last_user_content(ms@) == last_user_content(ms@.take(i as int)),
        decreases i,
    {
        assert(ms@.take(i as int).drop_last() =~= ms@.take(i as int - 1));
        if ms[i - 1].role == MessageRole::User {
            return ms[i - 1].content.clone();
        }
        i -= 1;
    }
    String::new()
}

fn render_tool_block(tools: &Vec<ToolDefinition>) -> (res: String)
    ensures
        res@ == tool_block(def_views(tools@)),
{
    let mut out = String::from_str("\n\n[INSTRUCCIONES TÃ‰CNICAS - HERRAMIENTAS]:\n");
    out.append("Responde con JSON de una sola herramienta cuando sea necesario.\n");
    out.append("Formato: {\"name\":\"tool_name\",\"arguments\":{...}}\n");
    out.append("Herramientas relevantes para ESTA consulta:\n");
    let ghost head = out@;
    let mut i: usize = 0;
    while i < tools.len()
        invariant
            i <= tools.len(),
            out@ == head + tool_lines(def_views(tools@).take(i as int)),
        decreases tools.len() - i,
    {
        assert(def_views(tools@).take(i as int + 1).drop_last() =~= def_views(tools@).take(i as int));
        out.append("- ");
        out.append(tools[i].name.as_str());
        out.append(": ");
        out.append(tools[i].description.as_str());
        out.append("\n");
        i += 1;
    }
    assert(def_views(tools@).take(tools.len() as int) =~= def_views(tools@));
    out.append("Si usas herramienta, devuelve solo el JSON de llamada sin texto extra.\n");
    out
}

fn to_local_turn(m: &ChatMessage) -> (res: ChatMessage)
    ensures
        turn(res) == local_turn(*m),
        is_plain(res),
{
    let role = if m.role == MessageRole::Tool { MessageRole::User } else { m.role };
    let content = if m.role == MessageRole::Tool {
        let mut c = String::from_str("\n[RESULTADO DE LA HERRAMIENTA]:\n");
        c.append(m.content.as_str());
        c.append("\n---\nEste es el resultado de la herramienta que solicitaste. NO vuelvas a ejecutar la misma herramienta. Por favor, lee esta informaciÃ³n y explÃ­casela al usuario en lenguaje natural, claro y conciso.");
        c
    } else {
        m.content.clone()
    };
    if trim(content.as_str()).len() == 0 {
        if role == MessageRole::Assistant {
            plain(role, String::from_str("[Procesando...]"))
        } else {
            plain(role, String::from_str("(Sin contenido)"))
        }
    } else {
        plain(role, content)
    }
}

fn merge_messages(ms: Vec<ChatMessage>) -> (res: Vec<ChatMessage>)
    ensures
        turns(res@) == merge_turns(turns(ms@)),
        forall|k: int| 0 <= k < res@.len() ==> is_plain(#[trigger] res@[k]),
{
    let ghost ts = turns(ms@);
    let mut out: Vec<ChatMessage> = Vec::new();
    let mut i: usize = 0;
    while i < ms.len()
        invariant
            i <= ms.len(),
            ts == turns(ms@),
            turns(out@) == merge_turns(ts.take(i as int)),
            forall|k: int| 0 <= k < out@.len() ==> is_plain(#[trigger] out@[k]),
        decreases ms.len() - i,
    {
        assert(ts.take(i as int + 1).drop_last() =~= ts.take(i as int));
        assert(ts.take(i as int + 1).last() == turn(ms@[i as int]));
        let n = out.len();
        if n > 0 && out[n - 1].role == ms[i].role {
            let joined = join_blank_line(&out[n - 1].content, &ms[i].content);
            let m = plain(ms[i].role, joined);
            out.set(n - 1, m);
            assert(turns(out@) =~= merge_turns(ts.take(i as int)).update(n - 1, (ms@[i as int].role, merge_turns(ts.take(i as int)).last().1 + "\n\n"@ + ms@[i as int].content@)));
        } else {
            let m = plain(ms[i].role, ms[i].content.clone());
            out.push(m);
            assert(turns(out@) =~= merge_turns(ts.take(i as int)).push(turn(ms@[i as int])));
        }
        i += 1;
    }
    assert(ts.take(ms.len() as int) =~= ts);
    out
}

/// Shapes a conversation for a local model: the system messages become one
/// text folded into the first user turn (with a shortlist of tools when
/// `include_tools` holds); at most the last twelve other messages are kept;
/// tool results become user turns; turns of one role are merged; the
/// conversation starts and ends with a user turn.
pub fn normalize_messages_for_local(messages: &[ChatMessage], include_tools: bool, definitions: &[ToolDefinition]) -> (res: Vec<ChatMessage>)
    ensures
        turns(res@) == local_history_spec(messages@, include_tools, def_views(definitions@)),
        forall|k: int| 0 <= k < res@.len() ==> is_plain(#[trigger] res@[k]),
{
    if messages.len() == 0 {
        let empty: Vec<ChatMessage> = Vec::new();
        assert(turns(empty@) =~= Seq::<(MessageRole, Seq<char>)>::empty());
        return empty;
    }
    let mut system_content = collect_system_text(messages);
    let others = collect_recent(messages);
    let ghost rec = recent(non_system(messages@));
    if include_tools {
        let last_user = find_last_user(&others);
        proof { lemma_last_user_turns(others@, rec); }
        let tools = build_tool_shortlist(last_user.as_str(), definitions);
        if tools.len() > 0 {
            let block = render_tool_block(&tools);
            system_content.append(block.as_str());
        }
    }
    assert(system_content@ == system_with_tools(messages@, include_tools, def_views(definitions@)));
    let mut mapped: Vec<ChatMessage> = Vec::new();
    let mut i: usize = 0;
    while i < others.len()
        invariant
            i <= others.len(),
            turns(others@) == turns(rec),
            turns(mapped@) =~= turns(rec).take(i as int).map_values(|t: (MessageRole, Seq<char>)| local_turn_of(t)),
        decreases others.len() - i,
    {
        let m = to_local_turn(&others[i]);
        proof {
            lemma_local_turn_of(others@[i as int]);
            assert(turns(others@)[i as int] == turn(others@[i as int]));
            assert(turn(m) == local_turn_of(turns(rec)[i as int]));
        }
        let ghost before = mapped@;
        mapped.push(m);
        assert(mapped@ == before.push(m));
        assert(turns(mapped@) =~= turns(before).push(turn(m)));
        assert(turns(mapped@) =~= turns(rec).take(i as int + 1).map_values(|t: (MessageRole, Seq<char>)| local_turn_of(t)));
        i += 1;
    }
    proof { lemma_fused_via_turns(rec); }
    assert(turns(mapped@) =~= rec.map_values(|m: ChatMessage| local_turn(m)));
    let fused = merge_messages(mapped);
    let mut opening: Vec<ChatMessage> = Vec::new();
    if fused.len() == 0 {
        let mut c = String::from_str("[SISTEMA]: ");
        c.append(system_content.as_str());
        c.append("\n\nHola, KERNEL IA.");
        opening.push(plain(MessageRole::User, c));
        assert(turns(opening@) =~= opening_turns(turns(fused@), system_content@));
    } else {
        if fused[0].role != MessageRole::User {
            opening.push(plain(MessageRole::User, String::from_str("Hola. Por favor presÃ©ntate y prepÃ¡rate para ayudarme.")));
        }
        let ghost pre = turns(opening@);
        let mut k: usize = 0;
        while k < fused.len()
            invariant
                k <= fused.len(),
                turns(opening@) == pre + turns(fused@).take(k as int),
            decreases fused.len() - k,
        {
            let m = plain(fused[k].role, fused[k].content.clone());
            let ghost before = opening@;
            assert(turns(fused@)[k as int] == turn(fused@[k as int]));
            opening.push(m);
            assert(opening@ == before.push(m));
            assert(turns(opening@) =~= turns(before).push(turn(m)));
            assert(turns(opening@) =~= pre + turns(fused@).take(k as int + 1));
            k += 1;
        }
        assert(turns(fused@).take(fused.len() as int) =~= turns(fused@));
        let ghost tf = turns(fused@);
        let ghost g = if tf[0].0 != MessageRole::User { seq![(MessageRole::User, "Hola. Por favor presÃ©ntate y prepÃ¡rate para ayudarme."@)] + tf } else { tf };
        assert(tf[0].0 == fused@[0].role);
        assert(turns(opening@) =~= g);
        if !system_content.as_str().is_empty() {
            assert(turns(opening@)[0] == turn(opening@[0]));
            let mut c = String::from_str("[INSTRUCCIONES DE SISTEMA]:\n");
            c.append(system_content.as_str());
            c.append("\n\n[MENSAJE]:\n");
            c.append(opening[0].content.as_str());
            let ghost before = opening@;
            opening.set(0, plain(MessageRole::User, c));
            assert(turns(opening@) =~= turns(before).update(0, (MessageRole::User, c@)));
        }
        assert(turns(opening@) =~= opening_turns(turns(fused@), system_content@));
    }
    let mut merged = merge_messages(opening);
    let n = merged.len();
    if n > 0 && merged[n - 1].role == MessageRole::Assistant {
        merged.push(plain(MessageRole::User, String::from_str("ContinÃºa con el diagnÃ³stico o genera tu conclusiÃ³n final.")));
    }
    assert(turns(merged@) =~= local_history_spec(messages@, include_tools, def_views(definitions@)));
    merged
}

/// `local_turn` read off a turn.
pub open spec fn local_turn_of(t: (MessageRole, Seq<char>)) -> (MessageRole, Seq<char>) {
    let role = if t.0 == MessageRole::Tool { MessageRole::User } else { t.0 };
    let content = if t.0 == MessageRole::Tool { "\n[RESULTADO DE LA HERRAMIENTA]:\n"@ + t.1 + "\n---\nEste es el resultado de la herramienta que solicitaste. NO vuelvas a ejecutar la misma herramienta. Por favor, lee esta informaciÃ³n y explÃ­casela al usuario en lenguaje natural, claro y conciso."@ } else { t.1 };
    if trim_seq(content).len() == 0 {
        (role, if role == MessageRole::Assistant { "[Procesando...]"@ } else { "(Sin contenido)"@ })
    } else {
        (role, content)
    }
}

proof fn lemma_local_turn_of(m: ChatMessage)
    ensures
        local_turn(m) == local_turn_of(turn(m)),
{
}

proof fn lemma_fused_via_turns(ms: Seq<ChatMessage>)
    ensures
        turns(ms).map_values(|t: (MessageRole, Seq<char>)| local_turn_of(t)) =~= ms.map_values(|m: ChatMessage| local_turn(m)),
{
    assert forall|k: int| 0 <= k < ms.len() implies local_turn_of(turns(ms)[k]) == local_turn(#[trigger] ms[k]) by {
        lemma_local_turn_of(ms[k]);
    }
}

proof fn lemma_last_user_turns(a: Seq<ChatMessage>, b: Seq<ChatMessage>)
    requires
        turns(a) == turns(b),
    ensures
        last_user_content(a) == last_user_content(b),
    decreases a.len(),
{
    assert(a.len() == turns(a).len() && b.len() == turns(b).len());
    if a.len() > 0 {
        assert(turns(a)[a.len() - 1] == turns(b)[b.len() - 1]);
        assert(turns(a.drop_last()) =~= turns(a).drop_last());
        assert(turns(b.drop_last()) =~= turns(b).drop_last());
        lemma_last_user_turns(a.drop_last(), b.drop_last());
    }
}



// ---------------------------------------------------------------------------
// Tool calls written as text
// ---------------------------------------------------------------------------

/// A top-level member of a JSON object: its key, whether its value is a
/// string, and that value (the string itself, or its JSON text).
#[derive(Debug, Clone)]
pub struct JsonMember {
    pub key: String,
    pub is_string: bool,
    pub text: String,
}

/// A member as plain values.
pub open spec fn member_view(m: JsonMember) -> (Seq<char>, bool, Seq<char>) {
    (m.key@, m.is_string, m.text@)
}

/// What `serde_json` reads from a JSON text that holds an object: its
/// members in the order of its map, each value as a string's contents or
/// as JSON text; none when the text is not JSON or not an object.
pub uninterp spec fn json_object_members(json: Seq<char>) -> Option<Seq<(Seq<char>, bool, Seq<char>)>>;

/// `serde_json::from_str` into a `Value`, then the members of an object,
/// as `json_object_members` names them.
#[verifier::external_body]
fn json_members(json: &str) -> (r: Option<Vec<JsonMember>>)
    ensures
        match json_object_members(json@) {
            Some(ms) => r matches Some(v) && v@.map_values(|m: JsonMember| member_view(m)) == ms,
            None => r is None,
        },
{
    match serde_json::from_str::<serde_json::Value>(json) {
        Ok(serde_json::Value::Object(map)) => Some(map.into_iter().map(|(key, v)| match v {
            serde_json::Value::String(text) => JsonMember { key, is_string: true, text },
            other => JsonMember { key, is_string: false, text: other.to_string() },
        }).collect()),
        _ => None,
    }
}

/// The value of the first member named `key`, at or after `i`.
pub open spec fn member_named(ms: Seq<(Seq<char>, bool, Seq<char>)>, key: Seq<char>, i: int) -> Option<(bool, Seq<char>)>
    decreases ms.len() - i,
{
    if i < 0 || i >= ms.len() {
        None
    } else if ms[i].0 == key {
        Some((ms[i].1, ms[i].2))
    } else {
        member_named(ms, key, i + 1)
    }
}

/// The tool call a JSON text holds: the string member `name`, and the
/// member `arguments` (a string as is, any other value as JSON text,
/// absent as none); none when the text is not a JSON object with a string
/// `name`.
pub open spec fn json_tool_call(json: Seq<char>) -> Option<(Seq<char>, Option<Seq<char>>)> {
    match json_object_members(json) {
        None => None,
        Some(ms) => match member_named(ms, "name"@, 0) {
            Some((true, n)) => Some((n, match member_named(ms, "arguments"@, 0) {
                Some((_, a)) => Some(a),
                None => None,
            })),
            _ => None,
        },
    }
}

fn find_member(members: &Vec<JsonMember>, key: &str) -> (r: Option<usize>)
    ensures
        match r {
            Some(k) => k < members.len() && member_named(members@.map_values(|m: JsonMember| member_view(m)), key@, 0)
                == Some((members@[k as int].is_string, members@[k as int].text@)),
            None => member_named(members@.map_values(|m: JsonMember| member_view(m)), key@, 0) is None,
        },
{
    let ghost ms = members@.map_values(|m: JsonMember| member_view(m));
    let mut i: usize = 0;
    while i < members.len()
        invariant
            i <= members.len(),
            ms == members@.map_values(|m: JsonMember| member_view(m)),
            member_named(ms, key@, 0) == member_named(ms, key@, i as int),
        decreases members.len() - i,
    {
        if str_eq(members[i].key.as_str(), key) {
            return Some(i);
        }
        i += 1;
    }
    None
}

/// Reads a tool call from a JSON text, as `json_tool_call` says.
fn parse_tool_json(json: &str) -> (r: Option<(String, Option<String>)>)
    ensures
        match json_tool_call(json@) {
            Some((n, a)) => r matches Some(p) && p.0@ == n && match (p.1, a) {
                (Some(x), Some(y)) => x@ == y,
                (None, None) => true,
                _ => false,
            },
            None => r is None,
        },
{
    let members = match json_members(json) {
        Some(m) => m,
        None => return None,
    };
    let name = match find_member(&members, "name") {
        Some(k) => {
            if !members[k].is_string {
                return None;
            }
            members[k].text.clone()
        },
        None => return None,
    };
    let arguments = match find_member(&members, "arguments") {
        Some(k) => Some(members[k].text.clone()),
        None => None,
    };
    Some((name, arguments))
}

/// A lowercase hexadecimal digit.
pub open spec fn is_lower_hex_digit(c: char) -> bool {
    ('0' <= c && c <= '9') || ('a' <= c && c <= 'f')
}

/// The bytes of a random (version 4) UUID made from sixteen random bytes:
/// the version nibble of byte 6 set to 4 and the two top bits of byte 8 to
/// `10`.
pub open spec fn uuid_v4_bytes(b: Seq<u8>) -> Seq<u8> {
    b.update(6, (b[6] % 16 + 64) as u8).update(8, (b[8] % 64 + 128) as u8)
}

/// `uuid::Builder::from_random_bytes(bytes).into_uuid().simple()`, written
/// as text: the lowercase hex of `uuid_v4_bytes(bytes)`.
#[verifier::external_body]
fn uuid_simple_from_bytes(bytes: &[u8]) -> (r: String)
    requires
        bytes@.len() == 16,
    ensures
        r@ == hex_text(uuid_v4_bytes(bytes@)),
{
    let mut b = [0u8; 16];
    b.copy_from_slice(bytes);
    uuid::Builder::from_random_bytes(b).into_uuid().simple().to_string()
}

/// A random (version 4) UUID as 32 lowercase hex digits, from sixteen
/// bytes of the system's random source; which digits is left to chance.
/// Fails, with the random source's error, when that source does.
pub fn random_simple_uuid() -> (r: Result<String, String>)
    ensures
        r matches Ok(s) ==> exists|b: Seq<u8>| b.len() == 16 && s@ == #[trigger] hex_text(uuid_v4_bytes(b)),
        r matches Ok(s) ==> s@.len() == 32 && forall|i: int| 0 <= i < 32 ==> is_lower_hex_digit(#[trigger] s@[i]),
        r matches Err(e) ==> rng_failure(e@),
{
    let b = match random_bytes(16) {
        Ok(b) => b,
        Err(e) => return Err(e),
    };
    let s = uuid_simple_from_bytes(b.as_slice());
    proof {
        lemma_hex_text_shape(uuid_v4_bytes(b@));
    }
    Ok(s)
}

/// The JSON inside the first fenced ```` ```json ```` block, trimmed.
pub open spec fn fenced_json(text: Seq<char>) -> Option<Seq<char>> {
    let i = find_from(text, "```json"@, 0);
    if i < 0 {
        None
    } else {
        let content = text.skip(i + 7);
        let e = find_from(content, "```"@, 0);
        if e < 0 { None } else { Some(trim_seq(content.take(e))) }
    }
}

/// The position of the last `c` in `text`, or -1.
pub open spec fn last_index_of(text: Seq<char>, c: char) -> int
    decreases text.len(),
{
    if text.len() == 0 {
        -1
    } else if text.last() == c {
        text.len() - 1
    } else {
        last_index_of(text.drop_last(), c)
    }
}

/// The position of the first `c` in `text` at or after `i`, or -1.
pub open spec fn index_of_from(text: Seq<char>, c: char, i: int) -> int
    decreases text.len() - i,
{
    if i < 0 || i >= text.len() {
        -1
    } else if text[i] == c {
        i
    } else {
        index_of_from(text, c, i + 1)
    }
}

/// Slicing from the first `{` to the last `}` is possible: one of them is
/// missing, or the last `}` does not come before the first `{` less one.
pub open spec fn braces_sliceable(text: Seq<char>) -> bool {
    let s = index_of_from(text, '{', 0);
    let e = last_index_of(text, '}');
    s < 0 || e < 0 || s <= e + 1
}

/// The text from the first `{` to the last `}`, when both occur.
pub open spec fn braced_json(text: Seq<char>) -> Option<Seq<char>> {
    let s = index_of_from(text, '{', 0);
    let e = last_index_of(text, '}');
    if s < 0 || e < 0 { None } else { Some(text.subrange(s, e + 1)) }
}

/// The tool call a model wrote as text: from a fenced JSON block when one
/// reads as a call, else from the text between the outer braces.
pub open spec fn text_tool_call(text: Seq<char>) -> Option<(Seq<char>, Seq<char>)> {
    let fenced = match fenced_json(text) { Some(j) => json_tool_call(j), None => None };
    let found = if fenced is Some { fenced } else { match braced_json(text) { Some(j) => json_tool_call(j), None => None } };
    match found {
        Some((n, a)) => Some((n, match a { Some(x) => x, None => "{}"@ })),
        None => None,
    }
}

/// A text from which a tool call can be read without slicing out of order.
pub open spec fn tool_text_readable(text: Seq<char>) -> bool {
    (match fenced_json(text) { Some(j) => json_tool_call(j), None => None }) is Some || braces_sliceable(text)
}

fn index_of(text: &Vec<char>, c: char) -> (r: Option<usize>)
    ensures
        match r {
            Some(i) => i < text.len() && index_of_from(text@, c, 0) == i as int,
            None => index_of_from(text@, c, 0) == -1,
        },
{
    let mut i: usize = 0;
    while i < text.len()
        invariant
            i <= text.len(),
            index_of_from(text@, c, 0) == index_of_from(text@, c, i as int),
        decreases text.len() - i,
    {
        if text[i] == c {
            return Some(i);
        }
        i += 1;
    }
    None
}

fn last_index(text: &Vec<char>, c: char) -> (r: Option<usize>)
    ensures
        match r {
            Some(i) => i < text.len() && last_index_of(text@, c) == i as int,
            None => last_index_of(text@, c) == -1,
        },
{
    let mut i: usize = text.len();
    assert(text@.take(text.len() as int) =~= text@);
    while i > 0
        invariant
            i <= text.len(),
            last_index_of(text@, c) == last_index_of(text@.take(i as int), c),
        decreases i,
    {
        assert(text@.take(i as int).drop_last() =~= text@.take(i - 1));
        if text[i - 1] == c {
            return Some(i - 1);
        }
        i -= 1;
    }
    None
}

fn chars_range(t: &Vec<char>, from: usize, to: usize) -> (r: Vec<char>)
    requires
        from <= to <= t.len(),
    ensures
        r@ == t@.subrange(from as int, to as int),
{
    let mut out: Vec<char> = Vec::new();
    let mut k: usize = from;
    while k < to
        invariant
            from <= k <= to,
            to <= t.len(),
            out@ == t@.subrange(from as int, k as int),
        decreases to - k,
    {
        out.push(t[k]);
        assert(t@.subrange(from as int, k + 1) =~= t@.subrange(from as int, k as int).push(t@[k as int]));
        k += 1;
    }
    out
}

fn fenced_block(t: &Vec<char>) -> (r: Option<Vec<char>>)
    ensures
        match fenced_json(t@) {
            Some(j) => r matches Some(v) && v@ == j,
            None => r is None,
        },
{
    let open = chars_of("```json");
    let close = chars_of("```");
    proof {
        reveal_strlit("```json");
        assert(open@.len() == 7);
    }
    match find_first(t, &open) {
        None => None,
        Some(i) => {
            assert(occurs_at(t@, open@, i as int));
            assert(i + 7 <= t.len());
            let content = chars_range(t, i + 7, t.len());
            assert(content@ =~= t@.skip(i + 7));
            match find_first(&content, &close) {
                None => None,
                Some(e) => {
                    let inner = chars_range(&content, 0, e);
                    assert(inner@ =~= content@.take(e as int));
                    Some(trim_chars(&inner))
                },
            }
        },
    }
}

/// The id of a call read from text: `call_` and the UUID drawn for it, or
/// none when no UUID could be drawn.
pub open spec fn text_call_id(uid: Option<Seq<char>>) -> Option<Seq<char>> {
    match uid {
        Some(u) => Some("call_"@ + u),
        None => None,
    }
}

fn call_from(name: String, arguments: Option<String>, uid: Option<String>) -> (r: ToolCall)
    ensures
        r.function.name@ == name@,
        r.function.arguments@ == match arguments { Some(a) => a@, None => "{}"@ },
        opt_text(r.id) == text_call_id(opt_text(uid)),
        r.call_type matches Some(t) && t@ == "function"@,
        r.index == Some(0u32),
{
    let id = match uid {
        Some(u) => {
            let mut id = String::from_str("call_");
            id.append(u.as_str());
            Some(id)
        },
        None => None,
    };
    let arguments = match arguments {
        Some(a) => a,
        None => String::from_str("{}"),
    };
    ToolCall {
        id,
        call_type: Some(String::from_str("function")),
        function: FunctionCall { name, arguments },
        index: Some(0),
    }
}

/// A call read from text: its name and arguments, the `function` type,
/// index zero and the id drawn for it.
pub open spec fn text_call_with(c: ToolCall, name: Seq<char>, arguments: Seq<char>, uid: Option<Seq<char>>) -> bool {
    &&& c.function.name@ == name
    &&& c.function.arguments@ == arguments
    &&& c.call_type matches Some(t) && t@ == "function"@
    &&& c.index == Some(0u32)
    &&& opt_text(c.id) == text_call_id(uid)
}

/// A call read from text with a fresh id: `call_` and 32 lowercase hex
/// digits, or none when the random source failed.
pub open spec fn text_call(c: ToolCall, name: Seq<char>, arguments: Seq<char>) -> bool {
    exists|uid: Option<Seq<char>>| #[trigger] text_call_with(c, name, arguments, uid)
        && (uid matches Some(u) ==> u.len() == 32 && forall|i: int| 0 <= i < 32 ==> is_lower_hex_digit(#[trigger] u[i]))
}

/// Whether a tool call can be read from a text without slicing out of order.
pub fn is_tool_text_readable(text: &str) -> (r: bool)
    ensures
        r == tool_text_readable(text@),
{
    let t = chars_of(text);
    let fenced_call = match fenced_block(&t) {
        Some(j) => parse_tool_json(string_from_chars(&j).as_str()).is_some(),
        None => false,
    };
    if fenced_call {
        return true;
    }
    match (index_of(&t, '{'), last_index(&t, '}')) {
        (Some(s), Some(e)) => s <= e + 1,
        _ => true,
    }
}

/// The tool calls a model wrote as text rather than as structured calls,
/// given the UUID that names a call (none when none could be drawn): none,
/// or the one read by `text_tool_call`.
pub fn parse_tool_calls_with_id(text: &str, uid: Option<String>) -> (r: Vec<ToolCall>)
    requires
        tool_text_readable(text@),
    ensures
        match text_tool_call(text@) {
            Some((n, a)) => r@.len() == 1 && text_call_with(r@[0], n, a, opt_text(uid)),
            None => r@.len() == 0,
        },
{
    let t = chars_of(text);
    let mut calls: Vec<ToolCall> = Vec::new();
    if let Some(j) = fenced_block(&t) {
        if let Some((name, arguments)) = parse_tool_json(string_from_chars(&j).as_str()) {
            calls.push(call_from(name, arguments, uid));
            return calls;
        }
    }
    if let Some(s) = index_of(&t, '{') {
        if let Some(e) = last_index(&t, '}') {
            let json = chars_range(&t, s, e + 1);
            if let Some((name, arguments)) = parse_tool_json(string_from_chars(&json).as_str()) {
                calls.push(call_from(name, arguments, uid));
            }
        }
    }
    calls
}

/// The tool calls a model wrote as text rather than as structured calls:
/// none, or the one read by `text_tool_call`, named `call_` and a fresh
/// UUID (no name when the random source fails).
pub fn parse_tool_calls_from_text(text: &str) -> (r: Vec<ToolCall>)
    requires
        tool_text_readable(text@),
    ensures
        match text_tool_call(text@) {
            Some((n, a)) => r@.len() == 1 && text_call(r@[0], n, a),
            None => r@.len() == 0,
        },
{
    let uid = match random_simple_uuid() {
        Ok(u) => Some(u),
        Err(_) => None,
    };
    let ghost g = opt_text(uid);
    let r = parse_tool_calls_with_id(text, uid);
    proof {
        if text_tool_call(text@) is Some {
            let (n, a) = text_tool_call(text@)->0;
            assert(text_call_with(r@[0], n, a, g));
        }
    }
    r
}

// ---------------------------------------------------------------------------
// The tool-calling loop
// ---------------------------------------------------------------------------

/// How many rounds of tool calls one answer may take.
pub const MAX_TOOL_ITERATIONS: usize = 5;

/// Models that run locally, by their name.
pub open spec fn local_model_spec(name: Seq<char>) -> bool {
    seq_contains(name, "local"@) || seq_contains(name, "gemma"@) || seq_contains(name, "llama"@)
}

/// Whether the selected model runs locally.
pub fn is_local_model(selected_model: &str) -> (r: bool)
    ensures
        r == local_model_spec(selected_model@),
{
    let t = chars_of(selected_model);
    contains(&t, "local") || contains(&t, "gemma") || contains(&t, "llama")
}

/// What the loop does after a reply: answer with its text, or run its tool
/// calls.
pub enum ReplyAction {
    Finish(String),
    RunTools(Vec<ToolCall>),
}

/// The calls a reply asks for: its structured calls, or, for a local model
/// whose reply has none, the calls read from its text.
pub open spec fn reply_calls(reply: ChatMessage, is_local: bool, from_text: Seq<ToolCall>) -> Option<Seq<ToolCall>> {
    let structured = match reply.tool_calls { Some(c) => Some(c@), None => None };
    let none = structured is None || structured->0.len() == 0;
    if none && is_local && from_text.len() > 0 { Some(from_text) } else { structured }
}

/// Decides what follows a model's reply: run the calls it asks for, or
/// finish with its text when it asks for none.
pub fn decide_after_reply(reply: ChatMessage, is_local: bool) -> (r: ReplyAction)
    requires
        is_local && (reply.tool_calls is None || reply.tool_calls->0@.len() == 0) ==> tool_text_readable(reply.content@),
    ensures
        !is_local || (reply.tool_calls matches Some(c) && c@.len() > 0) ==> match reply_calls(reply, is_local, Seq::empty()) {
            Some(c) => if c.len() > 0 { r matches ReplyAction::RunTools(v) && v@ == c } else { r matches ReplyAction::Finish(t) && t@ == reply.content@ },
            None => r matches ReplyAction::Finish(t) && t@ == reply.content@,
        },
        is_local && !(reply.tool_calls matches Some(c) && c@.len() > 0) ==> match text_tool_call(reply.content@) {
            Some((n, a)) => r matches ReplyAction::RunTools(v) && v@.len() == 1 && text_call(v@[0], n, a),
            None => r matches ReplyAction::Finish(t) && t@ == reply.content@,
        },
{
    let no_calls = match &reply.tool_calls {
        Some(c) => c.len() == 0,
        None => true,
    };
    if no_calls && is_local {
        let extracted = parse_tool_calls_from_text(reply.content.as_str());
        if extracted.len() > 0 {
            return ReplyAction::RunTools(extracted);
        }
    }
    match reply.tool_calls {
        Some(calls) => if calls.len() == 0 { ReplyAction::Finish(reply.content) } else { ReplyAction::RunTools(calls) },
        None => ReplyAction::Finish(reply.content),
    }
}

/// The text a tool's result is reported with: its output on success, else
/// its error, or `Error desconocido` when it gave none.
pub fn tool_message_content(success: bool, output: &str, error: &Option<String>) -> (r: String)
    ensures
        r@ == (if success { output@ } else { match error { Some(e) => e@, None => "Error desconocido"@ } }),
{
    if success {
        String::from_str(output)
    } else {
        match error {
            Some(e) => e.clone(),
            None => String::from_str("Error desconocido"),
        }
    }
}

/// The answer when the rounds run out: the text of the last message, or
/// the empty text.
pub fn final_response(messages: &Vec<ChatMessage>) -> (r: String)
    ensures
        r@ == (if messages@.len() > 0 { messages@.last().content@ } else { Seq::empty() }),
{
    if messages.len() > 0 {
        messages[messages.len() - 1].content.clone()
    } else {
        String::new()
    }
}

// ---------------------------------------------------------------------------
// Laws of the shaped conversation
// ---------------------------------------------------------------------------

/// A role a local model accepts in its conversation.
pub open spec fn is_dialog_role(r: MessageRole) -> bool {
    r == MessageRole::User || r == MessageRole::Assistant
}

/// Every turn is a user or assistant turn.
pub open spec fn dialog_roles(ts: Seq<(MessageRole, Seq<char>)>) -> bool {
    forall|i: int| 0 <= i < ts.len() ==> is_dialog_role(#[trigger] ts[i].0)
}

/// No two neighbouring turns have the same role.
pub open spec fn alternates(ts: Seq<(MessageRole, Seq<char>)>) -> bool {
    forall|i: int, j: int| 0 <= i && j == i + 1 && j < ts.len() ==> #[trigger] ts[i].0 != #[trigger] ts[j].0
}

/// The shape a local model needs: user and assistant turns that alternate,
/// starting and ending with a user turn, at most one more than the history
/// limit.
pub open spec fn local_history_shape(ts: Seq<(MessageRole, Seq<char>)>) -> bool {
    &&& 1 <= ts.len() <= LOCAL_HISTORY_LIMIT + 1
    &&& ts[0].0 == MessageRole::User
    &&& ts.last().0 == MessageRole::User
    &&& alternates(ts)
    &&& dialog_roles(ts)
}

proof fn lemma_merge_turns(ts: Seq<(MessageRole, Seq<char>)>)
    ensures
        merge_turns(ts).len() <= ts.len(),
        ts.len() > 0 ==> merge_turns(ts).len() > 0 && merge_turns(ts)[0].0 == ts[0].0
            && merge_turns(ts).last().0 == ts.last().0,
        alternates(merge_turns(ts)),
        dialog_roles(ts) ==> dialog_roles(merge_turns(ts)),
    decreases ts.len(),
{
    if ts.len() > 0 {
        let prev = merge_turns(ts.drop_last());
        lemma_merge_turns(ts.drop_last());
        let t = ts.last();
        if dialog_roles(ts) {
            assert forall|i: int| 0 <= i < ts.drop_last().len() implies is_dialog_role(#[trigger] ts.drop_last()[i].0) by {
                assert(ts.drop_last()[i] == ts[i]);
            }
            assert(is_dialog_role(ts[ts.len() - 1].0));
        }
        if ts.len() > 1 {
            assert(ts.drop_last()[0] == ts[0]);
        }
        if prev.len() > 0 && prev.last().0 == t.0 {
            let r = prev.update(prev.len() - 1, (t.0, prev.last().1 + "\n\n"@ + t.1));
            assert forall|i: int| 0 <= i < r.len() implies #[trigger] r[i].0 == prev[i].0 by {}
        } else {
            let r = prev.push(t);
            assert forall|i: int| 0 <= i < prev.len() implies #[trigger] r[i] == prev[i] by {}
        }
    }
}

proof fn lemma_alternating_parity(ts: Seq<(MessageRole, Seq<char>)>, i: int)
    requires
        alternates(ts),
        dialog_roles(ts),
        ts.len() > 0,
        ts[0].0 == MessageRole::User,
        0 <= i < ts.len(),
    ensures
        ts[i].0 == (if i % 2 == 0 { MessageRole::User } else { MessageRole::Assistant }),
    decreases i,
{
    if i > 0 {
        lemma_alternating_parity(ts, i - 1);
        assert(ts[i - 1].0 != ts[i].0);
        assert(is_dialog_role(ts[i].0));
    }
}

proof fn lemma_non_system_roles(ms: Seq<ChatMessage>)
    ensures
        forall|i: int| 0 <= i < non_system(ms).len() ==> (#[trigger] non_system(ms)[i]).role != MessageRole::System,
        non_system(ms).len() <= ms.len(),
    decreases ms.len(),
{
    if ms.len() > 0 {
        lemma_non_system_roles(ms.drop_last());
        let prev = non_system(ms.drop_last());
        if ms.last().role != MessageRole::System {
            assert forall|i: int| 0 <= i < prev.len() implies #[trigger] prev.push(ms.last())[i] == prev[i] by {}
        }
    }
}

/// The texts of the system messages of a history, in order.
pub open spec fn system_contents(ms: Seq<ChatMessage>) -> Seq<Seq<char>>
    decreases ms.len(),
{
    if ms.len() == 0 {
        Seq::empty()
    } else if ms.last().role == MessageRole::System {
        system_contents(ms.drop_last()).push(ms.last().content@)
    } else {
        system_contents(ms.drop_last())
    }
}

/// System texts joined by blank lines.
pub open spec fn joined_texts(cs: Seq<Seq<char>>) -> Seq<char>
    decreases cs.len(),
{
    if cs.len() == 0 {
        Seq::empty()
    } else {
        let prev = joined_texts(cs.drop_last());
        if prev.len() == 0 { cs.last() } else { prev + "\n\n"@ + cs.last() }
    }
}

proof fn lemma_system_text_joined(ms: Seq<ChatMessage>)
    ensures
        system_text(ms) == joined_texts(system_contents(ms)),
        system_contents(ms).len() + non_system(ms).len() == ms.len(),
    decreases ms.len(),
{
    if ms.len() > 0 {
        lemma_system_text_joined(ms.drop_last());
        if ms.last().role == MessageRole::System {
            assert(system_contents(ms).drop_last() =~= system_contents(ms.drop_last()));
        }
    }
}

/// What a local model is shown of a history depends only on the texts of
/// its system messages and on its last twelve other messages: two histories
/// that agree on these are shaped alike.
pub proof fn lemma_local_history_depends_on_recent(
    m1: Seq<ChatMessage>,
    m2: Seq<ChatMessage>,
    include_tools: bool,
    defs: Seq<(Seq<char>, Seq<char>, Seq<char>)>,
)
    requires
        system_contents(m1) == system_contents(m2),
        recent(non_system(m1)) == recent(non_system(m2)),
    ensures
        local_history_spec(m1, include_tools, defs) == local_history_spec(m2, include_tools, defs),
{
    lemma_system_text_joined(m1);
    lemma_system_text_joined(m2);
    if m1.len() == 0 || m2.len() == 0 {
        assert(non_system(m1).len() == 0 || non_system(m2).len() == 0);
        assert(recent(non_system(m1)).len() == 0);
        assert(m1.len() == 0 && m2.len() == 0);
    }
}

/// What a local model is shown is well shaped: it alternates between user
/// and assistant turns, starts and ends with a user turn, and has at most
/// one turn more than the history limit.
pub proof fn lemma_local_history_shape(ms: Seq<ChatMessage>, include_tools: bool, defs: Seq<(Seq<char>, Seq<char>, Seq<char>)>)
    requires
        ms.len() > 0,
    ensures
        local_history_shape(local_history_spec(ms, include_tools, defs)),
{
    let ns = non_system(ms);
    lemma_non_system_roles(ms);
    let rec = recent(ns);
    assert forall|i: int| 0 <= i < rec.len() implies (#[trigger] rec[i]).role != MessageRole::System by {
        if ns.len() > LOCAL_HISTORY_LIMIT {
            assert(rec[i] == ns[i + (ns.len() - LOCAL_HISTORY_LIMIT)]);
        }
    }
    let mapped = rec.map_values(|m: ChatMessage| local_turn(m));
    assert forall|i: int| 0 <= i < mapped.len() implies is_dialog_role(#[trigger] mapped[i].0) by {
        assert(mapped[i] == local_turn(rec[i]));
    }
    let fused = merge_turns(mapped);
    lemma_merge_turns(mapped);
    assert(fused.len() <= LOCAL_HISTORY_LIMIT);
    let sys = system_with_tools(ms, include_tools, defs);
    let o = opening_turns(fused, sys);
    if fused.len() > 0 {
        let g = if fused[0].0 != MessageRole::User { seq![(MessageRole::User, "Hola. Por favor presÃ©ntate y prepÃ¡rate para ayudarme."@)] + fused } else { fused };
        assert forall|i: int| 0 <= i < g.len() implies is_dialog_role(#[trigger] g[i].0) by {
            if fused[0].0 != MessageRole::User && i > 0 {
                assert(g[i] == fused[i - 1]);
            }
        }
        assert forall|i: int| 0 <= i < o.len() implies is_dialog_role(#[trigger] o[i].0) by {
            if i > 0 {
                assert(o[i] == g[i]);
            }
        }
    } else {
        assert(dialog_roles(o));
    }
    assert(o[0].0 == MessageRole::User);
    assert(o.len() <= LOCAL_HISTORY_LIMIT + 1);
    let m = merge_turns(o);
    lemma_merge_turns(o);
    let r = closing_turns(m);
    assert(r == local_history_spec(ms, include_tools, defs));
    if m.last().0 == MessageRole::Assistant {
        lemma_alternating_parity(m, m.len() - 1);
        assert(m.len() <= LOCAL_HISTORY_LIMIT);
        assert forall|i: int| 0 <= i < r.len() implies is_dialog_role(#[trigger] r[i].0) by {
            if i < m.len() {
                assert(r[i] == m[i]);
            }
        }
        assert forall|i: int, j: int| 0 <= i && j == i + 1 && j < r.len() implies #[trigger] r[i].0 != #[trigger] r[j].0 by {
            if j < m.len() {
                assert(r[i] == m[i] && r[j] == m[j]);
            }
        }
    }
}

} // verus!
