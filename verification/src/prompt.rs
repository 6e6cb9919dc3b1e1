//! Text sections of the prompt that governs a model's answer.

use vstd::prelude::*;
use crate::decision_engine::RetrievalBundle;
use crate::live_state::LiveStateContext;
use crate::memory::{bool_text, decision_mode_name, query_category_name};
use crate::models::{ConfidenceLevel, DecisionEnvelope, DecisionMode, DomainSpecialty, QueryAnalysis, QueryCategory, RetrievalHit, RiskLevel};
use crate::specialty_agent::{profile_text, SpecialtyAgentProfile};
use crate::text::{
    byte_boundary, collapse_ws, compact_spec, compact_text, decimal, decimal_string, hundredths, hundredths_text, join_seqs,
    join_strings, join_strs, string_views, utf8_len, views_of,
};

verus! {

/// What the model is told to do for a decision mode.
pub open spec fn recommendation_spec(mode: DecisionMode) -> Seq<char> {
    match mode {
        DecisionMode::Clarify => "Hacer una sola pregunta de aclaracion concreta antes de continuar."@,
        DecisionMode::Explain => "Responder con evidencia local, diagnostico breve y una recomendacion accionable."@,
        DecisionMode::Simulate => "Explicar el plan y mostrar el resultado esperado sin ejecutar cambios."@,
        DecisionMode::Execute => "Usar solo tools permitidas, resumir la evidencia y cerrar con la accion realizada."@,
        DecisionMode::Escalate => "No improvisar. Escalar al especialista correcto con la evidencia recolectada."@,
        DecisionMode::Deny => "Bloquear la accion y explicar el motivo tecnico o de seguridad."@,
    }
}

/// What the model is told to do for a decision.
pub fn render_recommendation(decision: &DecisionEnvelope) -> (r: String)
    ensures
        r@ == recommendation_spec(decision.decision_mode),
{
    let text = match decision.decision_mode {
        DecisionMode::Clarify => "Hacer una sola pregunta de aclaracion concreta antes de continuar.",
        DecisionMode::Explain => "Responder con evidencia local, diagnostico breve y una recomendacion accionable.",
        DecisionMode::Simulate => "Explicar el plan y mostrar el resultado esperado sin ejecutar cambios.",
        DecisionMode::Execute => "Usar solo tools permitidas, resumir la evidencia y cerrar con la accion realizada.",
        DecisionMode::Escalate => "No improvisar. Escalar al especialista correcto con la evidencia recolectada.",
        DecisionMode::Deny => "Bloquear la accion y explicar el motivo tecnico o de seguridad.",
    };
    String::from_str(text)
}

/// The name a specialty is written under.
pub open spec fn specialty_name_spec(s: DomainSpecialty) -> Seq<char> {
    match s {
        DomainSpecialty::System => "System"@,
        DomainSpecialty::Telemetry => "Telemetry"@,
        DomainSpecialty::Network => "Network"@,
        DomainSpecialty::Processes => "Processes"@,
        DomainSpecialty::Services => "Services"@,
        DomainSpecialty::Maintenance => "Maintenance"@,
        DomainSpecialty::Security => "Security"@,
        DomainSpecialty::Drivers => "Drivers"@,
        DomainSpecialty::Filesystem => "Filesystem"@,
        DomainSpecialty::Audit => "Audit"@,
        DomainSpecialty::Performance => "Performance"@,
        DomainSpecialty::Software => "Software"@,
        DomainSpecialty::SensitiveOps => "SensitiveOps"@,
        DomainSpecialty::Megaboss => "Megaboss"@,
        DomainSpecialty::Unknown => "Unknown"@,
    }
}

fn specialty_name(s: DomainSpecialty) -> (r: &'static str)
    ensures
        r@ == specialty_name_spec(s),
{
    match s {
        DomainSpecialty::System => "System",
        DomainSpecialty::Telemetry => "Telemetry",
        DomainSpecialty::Network => "Network",
        DomainSpecialty::Processes => "Processes",
        DomainSpecialty::Services => "Services",
        DomainSpecialty::Maintenance => "Maintenance",
        DomainSpecialty::Security => "Security",
        DomainSpecialty::Drivers => "Drivers",
        DomainSpecialty::Filesystem => "Filesystem",
        DomainSpecialty::Audit => "Audit",
        DomainSpecialty::Performance => "Performance",
        DomainSpecialty::Software => "Software",
        DomainSpecialty::SensitiveOps => "SensitiveOps",
        DomainSpecialty::Megaboss => "Megaboss",
        DomainSpecialty::Unknown => "Unknown",
    }
}

/// The titles of the first `limit` hits joined by ` | `, or `none`.
pub open spec fn hit_titles_spec(hits: Seq<RetrievalHit>, limit: nat) -> Seq<char> {
    let shown = hits.take(if hits.len() < limit { hits.len() as int } else { limit as int });
    if shown.len() == 0 {
        "none"@
    } else {
        join_seqs(shown.map_values(|h: RetrievalHit| h.title@), " | "@)
    }
}

/// The titles of the first `limit` hits.
pub fn render_hit_titles(hits: &Vec<RetrievalHit>, limit: usize) -> (r: String)
    ensures
        r@ == hit_titles_spec(hits@, limit as nat),
{
    let mut titles: Vec<String> = Vec::new();
    let mut i: usize = 0;
    while i < hits.len() && i < limit
        invariant
            i <= hits.len(),
            i <= limit,
            string_views(titles@) == hits@.take(i as int).map_values(|h: RetrievalHit| h.title@),
        decreases hits.len() - i,
    {
        let t = hits[i].title.clone();
        let ghost before = titles@;
        titles.push(t);
        assert(string_views(titles@) =~= string_views(before).push(t@));
        assert(hits@.take(i as int + 1).map_values(|h: RetrievalHit| h.title@) =~= hits@.take(i as int).map_values(|h: RetrievalHit| h.title@).push(hits@[i as int].title@));
        i += 1;
    }
    if titles.len() == 0 {
        String::from_str("none")
    } else {
        join_strings(&titles, " | ")
    }
}

/// Texts joined by `sep`, or a fallback when there are none.
pub open spec fn joined_or(items: Seq<Seq<char>>, sep: Seq<char>, fallback: Seq<char>) -> Seq<char> {
    if items.len() == 0 { fallback } else { join_seqs(items, sep) }
}

/// The specialist section of the prompt: the agent's profile, then the tools
/// it may use (the decision's, or its preferred ones when the decision names
/// none), the titles of the top knowledge and command hits, and the live
/// state summary.
pub open spec fn specialist_context_spec(profile: SpecialtyAgentProfile, decision: DecisionEnvelope, retrieval: RetrievalBundle, live_summary: Seq<Seq<char>>) -> Seq<char> {
    let p = profile_text(profile);
    let allowed = if decision.allowed_tools@.len() == 0 { join_seqs(p.preferred_tools, ", "@) } else { join_seqs(string_views(decision.allowed_tools@), ", "@) };
    "[KERNEL_SPECIALIST]\nname="@ + p.name + "\nspecialty="@ + specialty_name_spec(profile.specialty)
        + "\nmission="@ + p.mission + "\nresponse_contract="@ + p.response_contract
        + "\nrequired_evidence="@ + join_seqs(p.required_evidence, ", "@)
        + "\npreferred_tools="@ + join_seqs(p.preferred_tools, ", "@)
        + "\navoid_behaviors="@ + join_seqs(p.avoid_behaviors, ", "@)
        + "\n\n[KERNEL_SPECIALIST_CONTEXT]\nallowed_tools="@ + allowed
        + "\nknowledge_titles="@ + hit_titles_spec(retrieval.knowledge_hits@, 3)
        + "\ncommand_titles="@ + hit_titles_spec(retrieval.command_hits@, 4)
        + "\nlive_state="@ + joined_or(live_summary, " | "@, "sin estado vivo adicional"@) + "\n"@
}

/// Renders the specialist section of the prompt.
pub fn render_specialty_agent_context(
    profile: &SpecialtyAgentProfile,
    decision: &DecisionEnvelope,
    retrieval: &RetrievalBundle,
    live_state: &LiveStateContext,
) -> (r: String)
    ensures
        r@ == specialist_context_spec(*profile, *decision, *retrieval, string_views(live_state.summary@)),
{
    let live_summary = &live_state.summary;
    let allowed = if decision.allowed_tools.len() == 0 {
        join_strs(profile.preferred_tools, ", ")
    } else {
        join_strings(&decision.allowed_tools, ", ")
    };
    let live = if live_summary.len() == 0 {
        String::from_str("sin estado vivo adicional")
    } else {
        join_strings(live_summary, " | ")
    };
    let mut out = String::from_str("[KERNEL_SPECIALIST]\nname=");
    out.append(profile.name);
    out.append("\nspecialty=");
    out.append(specialty_name(profile.specialty));
    out.append("\nmission=");
    out.append(profile.mission);
    out.append("\nresponse_contract=");
    out.append(profile.response_contract);
    out.append("\nrequired_evidence=");
    out.append(join_strs(profile.required_evidence, ", ").as_str());
    out.append("\npreferred_tools=");
    out.append(join_strs(profile.preferred_tools, ", ").as_str());
    out.append("\navoid_behaviors=");
    out.append(join_strs(profile.avoid_behaviors, ", ").as_str());
    out.append("\n\n[KERNEL_SPECIALIST_CONTEXT]\nallowed_tools=");
    out.append(allowed.as_str());
    out.append("\nknowledge_titles=");
    out.append(render_hit_titles(&retrieval.knowledge_hits, 3).as_str());
    out.append("\ncommand_titles=");
    out.append(render_hit_titles(&retrieval.command_hits, 4).as_str());
    out.append("\nlive_state=");
    out.append(live.as_str());
    out.append("\n");
    out
}

/// Hit content shortened for the prompt: words joined by single spaces, cut
/// to 220 bytes with `...`.
pub fn compact_content(content: &str) -> (r: String)
    requires
        utf8_len(collapse_ws(content@)) > 220 ==> byte_boundary(collapse_ws(content@), 220),
    ensures
        r@ == compact_spec(content@, 220),
{
    compact_text(content, 220)
}


/// Whether a hit's content can be shortened for the prompt: its 220-byte
/// cut falls between characters.
pub open spec fn compactable(content: Seq<char>) -> bool {
    utf8_len(collapse_ws(content)) > 220 ==> byte_boundary(collapse_ws(content), 220)
}

/// Whether a hit's content can be shortened for the prompt.
pub fn content_compactable(content: &str) -> (r: bool)
    ensures
        r == compactable(content@),
{
    let single = crate::text::collapse_whitespace(&crate::text::chars_of(content));
    if crate::text::utf8_len_below(&single, 221) {
        true
    } else {
        crate::text::is_byte_boundary(&single, 220)
    }
}

/// The score shown for the hit at `i` (as printed), or nothing when none
/// was given.
pub open spec fn score_at(scores: Seq<Seq<char>>, i: int) -> Seq<char> {
    if 0 <= i < scores.len() { scores[i] } else { Seq::empty() }
}

/// One hit as the prompt shows it.
pub open spec fn hit_line(i: int, h: RetrievalHit, score: Seq<char>) -> Seq<char> {
    "Document "@ + decimal((i + 1) as nat) + ":::\n- ["@ + h.source_type@ + "] "@ + h.title@ + " | score="@ + score
        + " | "@ + compact_spec(h.content@, 220)
}

/// How many hits a section shows.
pub open spec fn shown_count(len: nat, limit: nat) -> nat {
    if len < limit { len } else { limit }
}

/// The lines of the first hits of a section.
pub open spec fn hit_lines(hits: Seq<RetrievalHit>, scores: Seq<Seq<char>>, n: nat) -> Seq<Seq<char>> {
    Seq::new(n, |i: int| hit_line(i, hits[i], score_at(scores, i)))
}

/// A section of hits: its name in brackets, then the first `limit` hits
/// separated by blank lines, or `- none`.
pub open spec fn render_hits_spec(section: Seq<char>, hits: Seq<RetrievalHit>, scores: Seq<Seq<char>>, limit: nat) -> Seq<char> {
    let n = shown_count(hits.len(), limit);
    if n == 0 {
        "["@ + section + "]\n- none"@
    } else {
        "["@ + section + "]\n"@ + join_seqs(hit_lines(hits, scores, n), "\n\n"@)
    }
}

/// The first `n` hits can be shortened for the prompt.
pub open spec fn hits_compactable(hits: Seq<RetrievalHit>, n: nat) -> bool {
    forall|i: int| 0 <= i < n && i < hits.len() ==> compactable(#[trigger] hits[i].content@)
}

/// Renders a section of hits; `scores` holds each hit's score as printed
/// with two decimals.
pub fn render_hits(section_name: &str, hits: &Vec<RetrievalHit>, scores: &Vec<String>, limit: usize) -> (r: String)
    requires
        hits_compactable(hits@, limit as nat),
    ensures
        r@ == render_hits_spec(section_name@, hits@, string_views(scores@), limit as nat),
{
    let n: usize = if hits.len() < limit { hits.len() } else { limit };
    let mut lines: Vec<String> = Vec::new();
    let mut i: usize = 0;
    while i < n
        invariant
            i <= n,
            n == shown_count(hits@.len(), limit as nat),
            n <= hits.len(),
            hits_compactable(hits@, limit as nat),
            string_views(lines@) == hit_lines(hits@, string_views(scores@), i as nat),
        decreases n - i,
    {
        let h = &hits[i];
        assert(compactable(hits@[i as int].content@));
        let mut line = String::from_str("Document ");
        line.append(decimal_string(i + 1).as_str());
        line.append(":::\n- [");
        line.append(h.source_type.as_str());
        line.append("] ");
        line.append(h.title.as_str());
        line.append(" | score=");
        if i < scores.len() {
            line.append(scores[i].as_str());
        }
        line.append(" | ");
        line.append(compact_content(h.content.as_str()).as_str());
        let ghost before = lines@;
        lines.push(line);
        assert(line@ == hit_line(i as int, hits@[i as int], score_at(string_views(scores@), i as int)));
        assert(string_views(lines@) =~= string_views(before).push(line@));
        assert(hit_lines(hits@, string_views(scores@), (i + 1) as nat)
            =~= hit_lines(hits@, string_views(scores@), i as nat).push(hit_line(i as int, hits@[i as int], score_at(string_views(scores@), i as int))));
        i += 1;
    }
    let mut out = String::from_str("[");
    out.append(section_name);
    if n == 0 {
        out.append("]\n- none");
    } else {
        out.append("]\n");
        out.append(join_strings(&lines, "\n\n").as_str());
    }
    out
}

/// The name a confidence level is printed with.
pub open spec fn confidence_level_name(c: ConfidenceLevel) -> Seq<char> {
    match c {
        ConfidenceLevel::High => "High"@,
        ConfidenceLevel::Medium => "Medium"@,
        ConfidenceLevel::Low => "Low"@,
    }
}

/// The name a risk level is printed with.
pub open spec fn risk_level_name(r: RiskLevel) -> Seq<char> {
    match r {
        RiskLevel::R0 => "R0"@,
        RiskLevel::R1 => "R1"@,
        RiskLevel::R2 => "R2"@,
        RiskLevel::R3 => "R3"@,
        RiskLevel::R4 => "R4"@,
    }
}

fn confidence_level_name_str(c: ConfidenceLevel) -> (r: &'static str)
    ensures
        r@ == confidence_level_name(c),
{
    match c {
        ConfidenceLevel::High => "High",
        ConfidenceLevel::Medium => "Medium",
        ConfidenceLevel::Low => "Low",
    }
}

fn risk_level_name_str(r: RiskLevel) -> (s: &'static str)
    ensures
        s@ == risk_level_name(r),
{
    match r {
        RiskLevel::R0 => "R0",
        RiskLevel::R1 => "R1",
        RiskLevel::R2 => "R2",
        RiskLevel::R3 => "R3",
        RiskLevel::R4 => "R4",
    }
}

fn query_category_name_str2(c: QueryCategory) -> (r: &'static str)
    ensures
        r@ == query_category_name(c),
{
    match c {
        QueryCategory::Specific => "Specific",
        QueryCategory::Short => "Short",
        QueryCategory::Ambiguous => "Ambiguous",
        QueryCategory::SymptomBased => "SymptomBased",
        QueryCategory::ActionRequest => "ActionRequest",
        QueryCategory::UnsafeRequest => "UnsafeRequest",
        QueryCategory::OutOfDomain => "OutOfDomain",
    }
}

fn decision_mode_name_str2(m: DecisionMode) -> (r: &'static str)
    ensures
        r@ == decision_mode_name(m),
{
    match m {
        DecisionMode::Clarify => "Clarify",
        DecisionMode::Explain => "Explain",
        DecisionMode::Simulate => "Simulate",
        DecisionMode::Execute => "Execute",
        DecisionMode::Escalate => "Escalate",
        DecisionMode::Deny => "Deny",
    }
}

fn bool_str(b: bool) -> (r: &'static str)
    ensures
        r@ == bool_text(b),
{
    if b { "true" } else { "false" }
}

fn join_or(items: &Vec<String>, sep: &str, fallback: &str) -> (r: String)
    ensures
        r@ == joined_or(string_views(items@), sep@, fallback@),
{
    if items.len() == 0 { String::from_str(fallback) } else { join_strings(items, sep) }
}

/// The fixed directives of the prompt, from the end of the query section to
/// the start of the memory section.
pub open spec fn rag_directives() -> Seq<char> {
    "\n\n[RAG_DIRECTIVES]\n1. Responde a la pregunta utilizando el contexto local [KNOWLEDGE], [COMMANDS] y [POLICIES].\n2. Si el contexto local no contiene la respuesta completa, consulta las fuentes oficiales de Microsoft (site:learn.microsoft.com OR site:support.microsoft.com).\n3. La respuesta DEBE ser siempre ordenada y estructurada en dos secciones principales:\n   - ### Solución\n   - ### Consejos y Recomendaciones\n4. PROHIBIDO REPETIR LAS INSTRUCCIONES DEL PROMPT, PLANTILLAS INTERNAS O SALUDOS GENÉRICOS DE BIENVENIDA. Responde DIRECTAMENTE con la Solución y Consejos.\n\n[KERNEL_MEMORY]\n"@
}

/// The scores of the shown hits, each as printed with two decimals, and the
/// decision's confidence score likewise.
#[derive(Debug, Clone)]
pub struct ScoreTexts {
    pub confidence: String,
    pub knowledge: Vec<String>,
    pub commands: Vec<String>,
    pub policies: Vec<String>,
}

/// The context that governs a model's answer: the query, the fixed
/// directives, the memory, the decision, the recommendation, the live
/// state, the specialist section and the top three hits of each kind.
pub open spec fn prompt_context_spec(
    a: QueryAnalysis,
    d: DecisionEnvelope,
    r: RetrievalBundle,
    live: LiveStateContext,
    profile: SpecialtyAgentProfile,
    memory: Option<Seq<char>>,
    scores: ScoreTexts,
) -> Seq<char> {
    "[KERNEL_RAG_CONTEXT]\nquery_category="@ + query_category_name(a.query_category)
        + "\nspecialty="@ + specialty_name_spec(d.specialty)
        + "\nurgency="@ + a.urgency@
        + "\nentities="@ + joined_or(string_views(a.entities@), ", "@, "none"@)
        + "\nsymptoms="@ + joined_or(string_views(a.symptoms@), ", "@, "none"@)
        + "\nambiguity_score="@ + hundredths(a.ambiguity_pct as nat)
        + rag_directives()
        + (match memory { Some(m) => m, None => "sin memoria operacional previa"@ })
        + "\n\n[KERNEL_DECISION]\nmode="@ + decision_mode_name(d.decision_mode)
        + "\nconfidence_level="@ + confidence_level_name(d.confidence_level)
        + "\nconfidence_score="@ + scores.confidence@
        + "\nrisk_level="@ + risk_level_name(d.risk_level)
        + "\nrequires_clarification="@ + bool_text(d.requires_clarification)
        + "\nrequires_live_state="@ + bool_text(d.requires_live_state)
        + "\nrequires_snapshot="@ + bool_text(d.requires_snapshot)
        + "\nrequires_human="@ + bool_text(d.requires_human)
        + "\nallowed_tools="@ + joined_or(string_views(d.allowed_tools@), ", "@, "ninguna"@)
        + "\ndenied_tools="@ + joined_or(string_views(d.denied_tools@), ", "@, "ninguna"@)
        + "\nreason_codes="@ + joined_or(string_views(d.reason_codes@), ", "@, "none"@)
        + "\n\n[KERNEL_RECOMMENDATION]\n"@ + recommendation_spec(d.decision_mode)
        + "\n\n[KERNEL_LIVE_STATE]\nsource="@ + (match live.snapshot_source { Some(s) => s@, None => "live_only"@ })
        + "\nsummary="@ + joined_or(string_views(live.summary@), " | "@, "sin estado vivo adicional"@)
        + "\nobservations="@ + joined_or(string_views(live.observations@), " | "@, "sin observaciones"@)
        + "\nconflicts="@ + joined_or(string_views(live.conflict_flags@), " | "@, "sin conflictos detectados"@)
        + "\n\n"@ + specialist_context_spec(profile, d, r, string_views(live.summary@))
        + "\n\n"@ + render_hits_spec("KNOWLEDGE"@, r.knowledge_hits@, string_views(scores.knowledge@), 3)
        + "\n\n"@ + render_hits_spec("COMMANDS"@, r.command_hits@, string_views(scores.commands@), 3)
        + "\n\n"@ + render_hits_spec("POLICIES"@, r.policy_hits@, string_views(scores.policies@), 3)
}

/// Builds the context that governs a model's answer. The contents of the
/// hits shown must be shortenable.
pub fn build_prompt_context(
    analysis: &QueryAnalysis,
    decision: &DecisionEnvelope,
    retrieval: &RetrievalBundle,
    live_state: &LiveStateContext,
    specialty_agent: &SpecialtyAgentProfile,
    memory_summary: Option<&str>,
    scores: &ScoreTexts,
) -> (r: String)
    requires
        hits_compactable(retrieval.knowledge_hits@, 3),
        hits_compactable(retrieval.command_hits@, 3),
        hits_compactable(retrieval.policy_hits@, 3),
    ensures
        r@ == prompt_context_spec(*analysis, *decision, *retrieval, *live_state, *specialty_agent,
            match memory_summary { Some(m) => Some(m@), None => None }, *scores),
{
    let knowledge = render_hits("KNOWLEDGE", &retrieval.knowledge_hits, &scores.knowledge, 3);
    let commands = render_hits("COMMANDS", &retrieval.command_hits, &scores.commands, 3);
    let policies = render_hits("POLICIES", &retrieval.policy_hits, &scores.policies, 3);
    let mut out = String::from_str("[KERNEL_RAG_CONTEXT]\nquery_category=");
    out.append(query_category_name_str2(analysis.query_category));
    out.append("\nspecialty=");
    out.append(specialty_name(decision.specialty));
    out.append("\nurgency=");
    out.append(analysis.urgency.as_str());
    out.append("\nentities=");
    out.append(join_or(&analysis.entities, ", ", "none").as_str());
    out.append("\nsymptoms=");
    out.append(join_or(&analysis.symptoms, ", ", "none").as_str());
    out.append("\nambiguity_score=");
    out.append(hundredths_text(analysis.ambiguity_pct).as_str());
    out.append("\n\n[RAG_DIRECTIVES]\n1. Responde a la pregunta utilizando el contexto local [KNOWLEDGE], [COMMANDS] y [POLICIES].\n2. Si el contexto local no contiene la respuesta completa, consulta las fuentes oficiales de Microsoft (site:learn.microsoft.com OR site:support.microsoft.com).\n3. La respuesta DEBE ser siempre ordenada y estructurada en dos secciones principales:\n   - ### Solución\n   - ### Consejos y Recomendaciones\n4. PROHIBIDO REPETIR LAS INSTRUCCIONES DEL PROMPT, PLANTILLAS INTERNAS O SALUDOS GENÉRICOS DE BIENVENIDA. Responde DIRECTAMENTE con la Solución y Consejos.\n\n[KERNEL_MEMORY]\n");
    match memory_summary {
        Some(m) => out.append(m),
        None => out.append("sin memoria operacional previa"),
    }
    out.append("\n\n[KERNEL_DECISION]\nmode=");
    out.append(decision_mode_name_str2(decision.decision_mode));
    out.append("\nconfidence_level=");
    out.append(confidence_level_name_str(decision.confidence_level));
    out.append("\nconfidence_score=");
    out.append(scores.confidence.as_str());
    out.append("\nrisk_level=");
    out.append(risk_level_name_str(decision.risk_level));
    out.append("\nrequires_clarification=");
    out.append(bool_str(decision.requires_clarification));
    out.append("\nrequires_live_state=");
    out.append(bool_str(decision.requires_live_state));
    out.append("\nrequires_snapshot=");
    out.append(bool_str(decision.requires_snapshot));
    out.append("\nrequires_human=");
    out.append(bool_str(decision.requires_human));
    out.append("\nallowed_tools=");
    out.append(join_or(&decision.allowed_tools, ", ", "ninguna").as_str());
    out.append("\ndenied_tools=");
    out.append(join_or(&decision.denied_tools, ", ", "ninguna").as_str());
    out.append("\nreason_codes=");
    out.append(join_or(&decision.reason_codes, ", ", "none").as_str());
    out.append("\n\n[KERNEL_RECOMMENDATION]\n");
    out.append(render_recommendation(decision).as_str());
    out.append("\n\n[KERNEL_LIVE_STATE]\nsource=");
    match &live_state.snapshot_source {
        Some(src) => out.append(src.as_str()),
        None => out.append("live_only"),
    }
    out.append("\nsummary=");
    out.append(join_or(&live_state.summary, " | ", "sin estado vivo adicional").as_str());
    out.append("\nobservations=");
    out.append(join_or(&live_state.observations, " | ", "sin observaciones").as_str());
    out.append("\nconflicts=");
    out.append(join_or(&live_state.conflict_flags, " | ", "sin conflictos detectados").as_str());
    out.append("\n\n");
    out.append(render_specialty_agent_context(specialty_agent, decision, retrieval, live_state).as_str());
    out.append("\n\n");
    out.append(knowledge.as_str());
    out.append("\n\n");
    out.append(commands.as_str());
    out.append("\n\n");
    out.append(policies.as_str());
    proof {
        reveal_strlit("\n\n[RAG_DIRECTIVES]\n1. Responde a la pregunta utilizando el contexto local [KNOWLEDGE], [COMMANDS] y [POLICIES].\n2. Si el contexto local no contiene la respuesta completa, consulta las fuentes oficiales de Microsoft (site:learn.microsoft.com OR site:support.microsoft.com).\n3. La respuesta DEBE ser siempre ordenada y estructurada en dos secciones principales:\n   - ### Solución\n   - ### Consejos y Recomendaciones\n4. PROHIBIDO REPETIR LAS INSTRUCCIONES DEL PROMPT, PLANTILLAS INTERNAS O SALUDOS GENÉRICOS DE BIENVENIDA. Responde DIRECTAMENTE con la Solución y Consejos.\n\n[KERNEL_MEMORY]\n");
    }
    out
}

} // verus!
