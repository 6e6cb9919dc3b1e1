//! The memory of a conversation: what one exchange leaves behind as facts,
//! tags, component states, open questions and tool actions.

use vstd::prelude::*;
use crate::function_calling::ToolInfo;
use crate::live_state::LiveStateContext;
use crate::models::{ConfidenceLevel, DecisionEnvelope, DecisionMode, QueryAnalysis, QueryCategory, RiskLevel};
use crate::retrieval::{specialty_code, specialty_code_spec};
use crate::text::{byte_boundary, byte_cut, cut_to_bytes, join_seqs, join_strings, string_views, utf8_len};

verus! {

/// One remembered fact; its confidence is in hundredths.
#[derive(Debug, Clone)]
pub struct MemoryFactDraft {
    pub fact_type: String,
    pub fact_key: String,
    pub fact_value: String,
    pub confidence_pct: u32,
}

/// Everything one exchange leaves in memory.
#[derive(Debug, Clone)]
pub struct MemorySnapshotDraft {
    pub summary: String,
    pub facts: Vec<MemoryFactDraft>,
    pub tags: Vec<String>,
    pub component_states: Vec<(String, String)>,
    pub open_questions: Vec<String>,
    pub tool_actions: Vec<String>,
    pub resolved: bool,
}

/// A fact as plain values: type, key, value, confidence in hundredths.
pub open spec fn fact_view(f: MemoryFactDraft) -> (Seq<char>, Seq<char>, Seq<char>, u32) {
    (f.fact_type@, f.fact_key@, f.fact_value@, f.confidence_pct)
}

pub open spec fn fact_views(fs: Seq<MemoryFactDraft>) -> Seq<(Seq<char>, Seq<char>, Seq<char>, u32)> {
    fs.map_values(|f: MemoryFactDraft| fact_view(f))
}

/// One fact per item, whose key and value are the item.
pub open spec fn item_facts(items: Seq<Seq<char>>, fact_type: Seq<char>, pct: u32) -> Seq<(Seq<char>, Seq<char>, Seq<char>, u32)> {
    items.map_values(|x: Seq<char>| (fact_type, x, x, pct))
}

/// The facts of an exchange: the user's request cut to 180 bytes, the
/// answer cut to 220 bytes, then the entities, symptoms, live observations
/// and conflicts.
pub open spec fn facts_spec(user: Seq<char>, assistant: Seq<char>, a: QueryAnalysis, live: LiveStateContext) -> Seq<(Seq<char>, Seq<char>, Seq<char>, u32)> {
    seq![
        ("user_goal"@, "latest_user_request"@, byte_cut(user, 180), 95u32),
        ("assistant_response"@, "latest_assistant_response"@, byte_cut(assistant, 220), 80u32),
    ]
        + item_facts(string_views(a.entities@), "entity"@, 90)
        + item_facts(string_views(a.symptoms@), "symptom"@, 88)
        + item_facts(string_views(live.observations@), "live_observation"@, 92)
        + item_facts(string_views(live.conflict_flags@), "conflict"@, 95)
}

/// The name a query category is printed with.
pub open spec fn query_category_name(c: QueryCategory) -> Seq<char> {
    match c {
        QueryCategory::Specific => "Specific"@,
        QueryCategory::Short => "Short"@,
        QueryCategory::Ambiguous => "Ambiguous"@,
        QueryCategory::SymptomBased => "SymptomBased"@,
        QueryCategory::ActionRequest => "ActionRequest"@,
        QueryCategory::UnsafeRequest => "UnsafeRequest"@,
        QueryCategory::OutOfDomain => "OutOfDomain"@,
    }
}

/// The name a decision mode is printed with.
pub open spec fn decision_mode_name(m: DecisionMode) -> Seq<char> {
    match m {
        DecisionMode::Clarify => "Clarify"@,
        DecisionMode::Explain => "Explain"@,
        DecisionMode::Simulate => "Simulate"@,
        DecisionMode::Execute => "Execute"@,
        DecisionMode::Escalate => "Escalate"@,
        DecisionMode::Deny => "Deny"@,
    }
}

/// The lowercase code of a decision mode.
pub open spec fn decision_mode_code(m: DecisionMode) -> Seq<char> {
    match m {
        DecisionMode::Clarify => "clarify"@,
        DecisionMode::Explain => "explain"@,
        DecisionMode::Simulate => "simulate"@,
        DecisionMode::Execute => "execute"@,
        DecisionMode::Escalate => "escalate"@,
        DecisionMode::Deny => "deny"@,
    }
}

/// The lowercase code of a risk level.
pub open spec fn risk_level_code(r: RiskLevel) -> Seq<char> {
    match r {
        RiskLevel::R0 => "r0"@,
        RiskLevel::R1 => "r1"@,
        RiskLevel::R2 => "r2"@,
        RiskLevel::R3 => "r3"@,
        RiskLevel::R4 => "r4"@,
    }
}

/// The lowercase code of a confidence level.
pub open spec fn confidence_level_code(c: ConfidenceLevel) -> Seq<char> {
    match c {
        ConfidenceLevel::High => "high"@,
        ConfidenceLevel::Medium => "medium"@,
        ConfidenceLevel::Low => "low"@,
    }
}

/// `true` or `false`.
pub open spec fn bool_text(b: bool) -> Seq<char> {
    if b { "true"@ } else { "false"@ }
}

/// The tags of an exchange.
pub open spec fn tags_spec(d: DecisionEnvelope) -> Seq<Seq<char>> {
    seq![
        "specialty:"@ + specialty_code_spec(d.specialty),
        "decision:"@ + decision_mode_code(d.decision_mode),
        "risk:"@ + risk_level_code(d.risk_level),
        "confidence:"@ + confidence_level_code(d.confidence_level),
    ]
}

/// The component states of an exchange.
pub open spec fn component_states_spec(d: DecisionEnvelope) -> Seq<(Seq<char>, Seq<char>)> {
    seq![
        ("clarification_required"@, bool_text(d.requires_clarification)),
        ("live_state_required"@, bool_text(d.requires_live_state)),
        ("human_required"@, bool_text(d.requires_human)),
    ]
}

pub open spec fn clarification_question() -> Seq<char> {
    "Falta precision operacional para ejecutar o responder con seguridad."@
}

pub open spec fn human_question() -> Seq<char> {
    "La accion requiere escalamiento o aprobacion humana."@
}

/// The questions an exchange leaves open.
pub open spec fn open_questions_spec(d: DecisionEnvelope) -> Seq<Seq<char>> {
    (if d.requires_clarification { seq![clarification_question()] } else { Seq::empty() })
        + (if d.requires_human { seq![human_question()] } else { Seq::empty() })
}

/// The summary line of an exchange; `confidence` is the decision's score as
/// printed with two decimals.
pub open spec fn memory_summary_spec(a: QueryAnalysis, d: DecisionEnvelope, confidence: Seq<char>, live: LiveStateContext) -> Seq<char> {
    "Consulta "@ + query_category_name(a.query_category) + " en "@ + specialty_code_spec(d.specialty)
        + ". Decision "@ + decision_mode_name(d.decision_mode) + " con confianza "@ + confidence
        + ". Entidades: "@
        + (if a.entities@.len() == 0 { "ninguna"@ } else { join_seqs(string_views(a.entities@), ", "@) })
        + ". Observaciones vivas: "@
        + (if live.observations@.len() == 0 { "sin observaciones"@ } else { join_seqs(string_views(live.observations@), " | "@) })
        + "."@
}

pub open spec fn pair_views(ps: Seq<(String, String)>) -> Seq<(Seq<char>, Seq<char>)> {
    ps.map_values(|p: (String, String)| (p.0@, p.1@))
}

pub open spec fn tool_names(ts: Seq<ToolInfo>) -> Seq<Seq<char>> {
    ts.map_values(|t: ToolInfo| t.name@)
}

fn query_category_name_str(c: &QueryCategory) -> (r: &'static str)
    ensures
        r@ == query_category_name(*c),
{
    match c {
        QueryCategory::Specific => "Specific",
        QueryCategory::Short => "Short",
        QueryCategory::Ambiguous => "Ambiguous",
        QueryCategory::SymptomBased => "SymptomBased",
        QueryCategory::ActionRequest => "ActionRequest",
        QueryCategory::UnsafeRequest => "UnsafeRequest",
        QueryCategory::OutOfDomain => "OutOfDomain",
    }
}

fn decision_mode_name_str(m: &DecisionMode) -> (r: &'static str)
    ensures
        r@ == decision_mode_name(*m),
{
    match m {
        DecisionMode::Clarify => "Clarify",
        DecisionMode::Explain => "Explain",
        DecisionMode::Simulate => "Simulate",
        DecisionMode::Execute => "Execute",
        DecisionMode::Escalate => "Escalate",
        DecisionMode::Deny => "Deny",
    }
}

pub(crate) fn decision_mode_code_str(m: &DecisionMode) -> (r: &'static str)
    ensures
        r@ == decision_mode_code(*m),
{
    match m {
        DecisionMode::Clarify => "clarify",
        DecisionMode::Explain => "explain",
        DecisionMode::Simulate => "simulate",
        DecisionMode::Execute => "execute",
        DecisionMode::Escalate => "escalate",
        DecisionMode::Deny => "deny",
    }
}

pub(crate) fn risk_level_code_str(r: &RiskLevel) -> (s: &'static str)
    ensures
        s@ == risk_level_code(*r),
{
    match r {
        RiskLevel::R0 => "r0",
        RiskLevel::R1 => "r1",
        RiskLevel::R2 => "r2",
        RiskLevel::R3 => "r3",
        RiskLevel::R4 => "r4",
    }
}

pub(crate) fn confidence_level_code_str(c: &ConfidenceLevel) -> (r: &'static str)
    ensures
        r@ == confidence_level_code(*c),
{
    match c {
        ConfidenceLevel::High => "high",
        ConfidenceLevel::Medium => "medium",
        ConfidenceLevel::Low => "low",
    }
}

pub(crate) fn bool_text_str(b: bool) -> (r: &'static str)
    ensures
        r@ == bool_text(b),
{
    if b { "true" } else { "false" }
}

fn concat(prefix: &str, rest: &str) -> (r: String)
    ensures
        r@ == prefix@ + rest@,
{
    let mut out = String::from_str(prefix);
    out.append(rest);
    out
}

/// Appends one fact per item, with the item as key and value.
fn push_item_facts(facts: &mut Vec<MemoryFactDraft>, items: &Vec<String>, fact_type: &str, pct: u32)
    ensures
        fact_views(final(facts)@) == fact_views(old(facts)@) + item_facts(string_views(items@), fact_type@, pct),
{
    let ghost start = fact_views(facts@);
    let mut i: usize = 0;
    while i < items.len()
        invariant
            i <= items.len(),
            fact_views(facts@) == start + item_facts(string_views(items@).take(i as int), fact_type@, pct),
        decreases items.len() - i,
    {
        let ghost before = facts@;
        let f = MemoryFactDraft {
            fact_type: String::from_str(fact_type),
            fact_key: items[i].clone(),
            fact_value: items[i].clone(),
            confidence_pct: pct,
        };
        facts.push(f);
        assert(fact_views(facts@) =~= fact_views(before).push(fact_view(f)));
        assert(item_facts(string_views(items@).take(i as int + 1), fact_type@, pct)
            =~= item_facts(string_views(items@).take(i as int), fact_type@, pct).push((fact_type@, items@[i as int]@, items@[i as int]@, pct)));
        i += 1;
    }
    assert(string_views(items@).take(items.len() as int) =~= string_views(items@));
}

/// What one exchange leaves in memory. `confidence_text` is the decision's
/// confidence score as printed with two decimals. The user's request is cut
/// to 180 bytes and the answer to 220, so those cuts must fall between
/// characters.
pub fn build_memory_snapshot(
    user_message: &str,
    assistant_message: &str,
    analysis: &QueryAnalysis,
    decision: &DecisionEnvelope,
    confidence_text: &str,
    live_state: &LiveStateContext,
    tools_used: &Vec<ToolInfo>,
) -> (r: MemorySnapshotDraft)
    requires
        utf8_len(user_message@) > 180 ==> byte_boundary(user_message@, 180),
        utf8_len(assistant_message@) > 220 ==> byte_boundary(assistant_message@, 220),
    ensures
        r.summary@ == memory_summary_spec(*analysis, *decision, confidence_text@, *live_state),
        fact_views(r.facts@) == facts_spec(user_message@, assistant_message@, *analysis, *live_state),
        string_views(r.tags@) == tags_spec(*decision),
        pair_views(r.component_states@) == component_states_spec(*decision),
        string_views(r.open_questions@) == open_questions_spec(*decision),
        string_views(r.tool_actions@) == tool_names(tools_used@),
        r.resolved == (!decision.requires_clarification && !decision.requires_human),
{
    let mut tags: Vec<String> = Vec::new();
    tags.push(concat("specialty:", specialty_code(&decision.specialty)));
    tags.push(concat("decision:", decision_mode_code_str(&decision.decision_mode)));
    tags.push(concat("risk:", risk_level_code_str(&decision.risk_level)));
    tags.push(concat("confidence:", confidence_level_code_str(&decision.confidence_level)));
    assert(string_views(tags@) =~= tags_spec(*decision));

    let mut facts: Vec<MemoryFactDraft> = Vec::new();
    facts.push(MemoryFactDraft {
        fact_type: String::from_str("user_goal"),
        fact_key: String::from_str("latest_user_request"),
        fact_value: cut_to_bytes(user_message, 180),
        confidence_pct: 95,
    });
    facts.push(MemoryFactDraft {
        fact_type: String::from_str("assistant_response"),
        fact_key: String::from_str("latest_assistant_response"),
        fact_value: cut_to_bytes(assistant_message, 220),
        confidence_pct: 80,
    });
    let ghost head = fact_views(facts@);
    assert(head =~= seq![
        ("user_goal"@, "latest_user_request"@, byte_cut(user_message@, 180), 95u32),
        ("assistant_response"@, "latest_assistant_response"@, byte_cut(assistant_message@, 220), 80u32),
    ]);
    push_item_facts(&mut facts, &analysis.entities, "entity", 90);
    push_item_facts(&mut facts, &analysis.symptoms, "symptom", 88);
    push_item_facts(&mut facts, &live_state.observations, "live_observation", 92);
    push_item_facts(&mut facts, &live_state.conflict_flags, "conflict", 95);

    let mut component_states: Vec<(String, String)> = Vec::new();
    component_states.push((String::from_str("clarification_required"), String::from_str(bool_text_str(decision.requires_clarification))));
    component_states.push((String::from_str("live_state_required"), String::from_str(bool_text_str(decision.requires_live_state))));
    component_states.push((String::from_str("human_required"), String::from_str(bool_text_str(decision.requires_human))));
    assert(pair_views(component_states@) =~= component_states_spec(*decision));

    let mut open_questions: Vec<String> = Vec::new();
    if decision.requires_clarification {
        open_questions.push(String::from_str("Falta precision operacional para ejecutar o responder con seguridad."));
    }
    if decision.requires_human {
        open_questions.push(String::from_str("La accion requiere escalamiento o aprobacion humana."));
    }
    assert(string_views(open_questions@) =~= open_questions_spec(*decision));

    let mut tool_actions: Vec<String> = Vec::new();
    let mut i: usize = 0;
    while i < tools_used.len()
        invariant
            i <= tools_used.len(),
            string_views(tool_actions@) == tool_names(tools_used@.take(i as int)),
        decreases tools_used.len() - i,
    {
        let ghost before = tool_actions@;
        let name = tools_used[i].name.clone();
        tool_actions.push(name);
        assert(string_views(tool_actions@) =~= string_views(before).push(name@));
        assert(tool_names(tools_used@.take(i as int + 1)) =~= tool_names(tools_used@.take(i as int)).push(tools_used@[i as int].name@));
        i += 1;
    }
    assert(tools_used@.take(tools_used.len() as int) =~= tools_used@);

    let mut summary = String::from_str("Consulta ");
    summary.append(query_category_name_str(&analysis.query_category));
    summary.append(" en ");
    summary.append(specialty_code(&decision.specialty));
    summary.append(". Decision ");
    summary.append(decision_mode_name_str(&decision.decision_mode));
    summary.append(" con confianza ");
    summary.append(confidence_text);
    summary.append(". Entidades: ");
    if analysis.entities.len() == 0 {
        summary.append("ninguna");
    } else {
        let joined = join_strings(&analysis.entities, ", ");
        summary.append(joined.as_str());
    }
    summary.append(". Observaciones vivas: ");
    if live_state.observations.len() == 0 {
        summary.append("sin observaciones");
    } else {
        let joined = join_strings(&live_state.observations, " | ");
        summary.append(joined.as_str());
    }
    summary.append(".");

    MemorySnapshotDraft {
        summary,
        facts,
        tags,
        component_states,
        open_questions,
        tool_actions,
        resolved: !decision.requires_clarification && !decision.requires_human,
    }
}

} // verus!
