//! Rows read from the retrieval store turned into hits: knowledge chunks,
//! commands, risk policies, decision policies and confidence policies.

use vstd::prelude::*;
use crate::models::{DomainSpecialty, QueryAnalysis, RetrievalHit};
use crate::retrieval::{specialty_from_code, specialty_from_code_spec, specialty_from_specialty_id, strip_leading};
use crate::text::{chars_of, contains_seq, replace_all, replace_chars, seq_contains, str_eq};

verus! {

pub open spec fn opt_text(o: Option<String>) -> Option<Seq<char>> {
    match o {
        Some(s) => Some(s@),
        None => None,
    }
}

/// A hit as plain values: source type, source identifier, title, specialty,
/// entity key and content.
pub open spec fn hit_view(h: RetrievalHit) -> (Seq<char>, Seq<char>, Seq<char>, DomainSpecialty, Option<Seq<char>>, Seq<char>) {
    (h.source_type@, h.source_id@, h.title@, h.specialty, opt_text(h.entity_key), h.content@)
}

/// An empty key stands for no key.
pub open spec fn key_or_none(k: Seq<char>) -> Option<Seq<char>> {
    if k.len() == 0 { None } else { Some(k) }
}

fn key_or_none_exec(k: &str) -> (r: Option<String>)
    ensures
        opt_text(r) == key_or_none(k@),
{
    if chars_of(k).len() == 0 { None } else { Some(String::from_str(k)) }
}

// ---------------------------------------------------------------------------
// Knowledge chunks
// ---------------------------------------------------------------------------

/// The text a knowledge chunk is scored on: its document title, its anchor
/// and its text, separated by spaces.
pub open spec fn knowledge_base_text_spec(title: Seq<char>, anchor: Seq<char>, chunk: Seq<char>) -> Seq<char> {
    title + " "@ + anchor + " "@ + chunk
}

/// The text a knowledge chunk is scored on.
pub fn knowledge_base_text(title: &str, title_anchor: &str, chunk_text: &str) -> (r: String)
    ensures
        r@ == knowledge_base_text_spec(title@, title_anchor@, chunk_text@),
{
    let mut r = String::from_str(title);
    r.append(" ");
    r.append(title_anchor);
    r.append(" ");
    r.append(chunk_text);
    r
}

/// A knowledge chunk as a hit.
pub fn knowledge_hit(source_id: &str, title: &str, chunk_text: &str, specialty_code: &str, entity_key: &str) -> (r: RetrievalHit)
    ensures
        hit_view(r) == ("knowledge_chunk"@, source_id@, title@, specialty_from_code_spec(specialty_code@), key_or_none(entity_key@), chunk_text@),
{
    RetrievalHit {
        source_type: String::from_str("knowledge_chunk"),
        source_id: String::from_str(source_id),
        title: String::from_str(title),
        specialty: specialty_from_code(specialty_code),
        entity_key: key_or_none_exec(entity_key),
        content: String::from_str(chunk_text),
    }
}

// ---------------------------------------------------------------------------
// Commands and risk policies
// ---------------------------------------------------------------------------

/// The title of a command: `tool -> name` when a tool is bound to it, else
/// its name.
pub open spec fn command_title_spec(canonical: Seq<char>, tool: Seq<char>) -> Seq<char> {
    if tool.len() == 0 { canonical } else { tool + " -> "@ + canonical }
}

/// The text a command is scored on.
pub open spec fn command_content_spec(canonical: Seq<char>, description: Seq<char>, template: Seq<char>, alias: Seq<char>) -> Seq<char> {
    canonical + " "@ + description + " "@ + template + " "@ + alias
}

/// A command, with its alias and bound tool, as a hit.
pub fn command_hit(
    id: &str,
    canonical_name: &str,
    description: &str,
    specialty_code: &str,
    command_template: &str,
    alias_text: &str,
    tool_name: &str,
) -> (r: RetrievalHit)
    ensures
        hit_view(r) == ("command_or_tool"@, id@, command_title_spec(canonical_name@, tool_name@),
            specialty_from_code_spec(specialty_code@), key_or_none(alias_text@),
            command_content_spec(canonical_name@, description@, command_template@, alias_text@)),
{
    let title = if chars_of(tool_name).len() == 0 {
        String::from_str(canonical_name)
    } else {
        let mut t = String::from_str(tool_name);
        t.append(" -> ");
        t.append(canonical_name);
        t
    };
    let mut content = String::from_str(canonical_name);
    content.append(" ");
    content.append(description);
    content.append(" ");
    content.append(command_template);
    content.append(" ");
    content.append(alias_text);
    RetrievalHit {
        source_type: String::from_str("command_or_tool"),
        source_id: String::from_str(id),
        title,
        specialty: specialty_from_code(specialty_code),
        entity_key: key_or_none_exec(alias_text),
        content,
    }
}

/// A command named exactly as the query (by alias or by name) earns 30
/// hundredths.
pub open spec fn command_exact_bonus_spec(alias: Seq<char>, canonical: Seq<char>, normalized: Seq<char>) -> u32 {
    if alias == normalized || canonical == normalized { 30 } else { 0 }
}

/// The exact-name bonus of a command.
pub fn command_exact_bonus_pct(alias_text: &str, canonical_name: &str, normalized_text: &str) -> (r: u32)
    ensures
        r == command_exact_bonus_spec(alias_text@, canonical_name@, normalized_text@),
{
    if str_eq(alias_text, normalized_text) || str_eq(canonical_name, normalized_text) { 30 } else { 0 }
}

/// The text a risk policy is scored on.
pub open spec fn risk_content_spec(tool: Seq<char>, risk: Seq<char>, min_role: Seq<char>, description: Seq<char>) -> Seq<char> {
    "tool_name="@ + tool + " risk_level="@ + risk + " min_role="@ + min_role + " "@ + description
}

/// A risk policy as a hit; its entity key is the risk level.
pub fn risk_hit(id: &str, tool_name: &str, risk_level: &str, min_role: &str, specialty_id: &str, description: &str) -> (r: RetrievalHit)
    ensures
        hit_view(r) == ("risk_policy"@, id@, "Risk policy "@ + tool_name@,
            specialty_from_code_spec(strip_leading(specialty_id@, "sp_"@)), Some(risk_level@),
            risk_content_spec(tool_name@, risk_level@, min_role@, description@)),
{
    let mut title = String::from_str("Risk policy ");
    title.append(tool_name);
    let mut content = String::from_str("tool_name=");
    content.append(tool_name);
    content.append(" risk_level=");
    content.append(risk_level);
    content.append(" min_role=");
    content.append(min_role);
    content.append(" ");
    content.append(description);
    RetrievalHit {
        source_type: String::from_str("risk_policy"),
        source_id: String::from_str(id),
        title,
        specialty: specialty_from_specialty_id(specialty_id),
        entity_key: Some(String::from_str(risk_level)),
        content,
    }
}

/// Which fixed bonuses a risk policy earns: one for the query's specialty,
/// one for a query that names its tool (underscores read as spaces); each
/// is worth 30 hundredths.
pub open spec fn risk_matches_spec(candidate: DomainSpecialty, a: QueryAnalysis, tool: Seq<char>) -> (bool, bool) {
    (candidate == a.specialty, seq_contains(a.normalized_text@, replace_all(tool, "_"@, " "@)))
}

/// Which fixed bonuses a risk policy earns.
pub fn risk_matches(candidate_specialty: &DomainSpecialty, analysis: &QueryAnalysis, tool_name: &str) -> (r: (bool, bool))
    ensures
        r == risk_matches_spec(*candidate_specialty, *analysis, tool_name@),
{
    let spaced = replace_chars(&chars_of(tool_name), "_", " ");
    let text = chars_of(analysis.normalized_text.as_str());
    (*candidate_specialty == analysis.specialty, contains_seq(&text, &spaced))
}

// ---------------------------------------------------------------------------
// Decision and confidence policies
// ---------------------------------------------------------------------------

/// The text of a decision policy.
pub open spec fn decision_policy_content_spec(mode: Seq<char>, style: Seq<char>, specialty: Seq<char>, category: Seq<char>) -> Seq<char> {
    "decision_mode="@ + mode + " response_style="@ + style + " specialty="@ + specialty + " query_category="@ + category
}

/// A decision policy as a hit.
pub fn decision_policy_hit(id: &str, specialty: &str, category: &str, decision_mode: &str, response_style: &str) -> (r: RetrievalHit)
    ensures
        hit_view(r) == ("decision_policy"@, id@, "Decision policy "@ + specialty@ + " / "@ + category@,
            specialty_from_code_spec(specialty@), None::<Seq<char>>,
            decision_policy_content_spec(decision_mode@, response_style@, specialty@, category@)),
{
    let mut title = String::from_str("Decision policy ");
    title.append(specialty);
    title.append(" / ");
    title.append(category);
    let mut content = String::from_str("decision_mode=");
    content.append(decision_mode);
    content.append(" response_style=");
    content.append(response_style);
    content.append(" specialty=");
    content.append(specialty);
    content.append(" query_category=");
    content.append(category);
    RetrievalHit {
        source_type: String::from_str("decision_policy"),
        source_id: String::from_str(id),
        title,
        specialty: specialty_from_code(specialty),
        entity_key: None,
        content,
    }
}

/// The text of a confidence policy; the thresholds come as printed.
pub open spec fn confidence_policy_content_spec(high: Seq<char>, medium: Seq<char>, specialty: Seq<char>, category: Seq<char>) -> Seq<char> {
    "high_threshold="@ + high + " medium_threshold="@ + medium + " specialty="@ + specialty + " query_category="@ + category
}

/// A confidence policy as a hit; its thresholds come as printed.
pub fn confidence_policy_hit(id: &str, specialty: &str, category: &str, high_threshold: &str, medium_threshold: &str) -> (r: RetrievalHit)
    ensures
        hit_view(r) == ("confidence_policy"@, id@, "Confidence policy "@ + specialty@ + " / "@ + category@,
            specialty_from_code_spec(specialty@), None::<Seq<char>>,
            confidence_policy_content_spec(high_threshold@, medium_threshold@, specialty@, category@)),
{
    let mut title = String::from_str("Confidence policy ");
    title.append(specialty);
    title.append(" / ");
    title.append(category);
    let mut content = String::from_str("high_threshold=");
    content.append(high_threshold);
    content.append(" medium_threshold=");
    content.append(medium_threshold);
    content.append(" specialty=");
    content.append(specialty);
    content.append(" query_category=");
    content.append(category);
    RetrievalHit {
        source_type: String::from_str("confidence_policy"),
        source_id: String::from_str(id),
        title,
        specialty: specialty_from_code(specialty),
        entity_key: None,
        content,
    }
}

/// Which fixed bonuses a policy earns: one for the query's specialty code,
/// one for its category code.
pub fn policy_matches(specialty: &str, category: &str, query_specialty: &str, query_category: &str) -> (r: (bool, bool))
    ensures
        r == (specialty@ == query_specialty@, category@ == query_category@),
{
    (str_eq(specialty, query_specialty), str_eq(category, query_category))
}

} // verus!
