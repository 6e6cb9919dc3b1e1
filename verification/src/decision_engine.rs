//! Decision engine: derives the risk of a query from the retrieved risk
//! policies, splits the candidate tools into allowed and denied, and chooses
//! the decision mode.

use vstd::prelude::*;
use crate::models::{
    ConfidenceAssessment, ConfidenceLevel, DecisionEnvelope, DecisionMode, DomainSpecialty,
    QueryAnalysis, QueryCategory, RetrievalHit, RiskLevel,
};
use crate::text::{
    chars_of, chars_eq, contains_any, contains_any_spec, find_first, find_from, lowercase_chars,
    lowercase_of, owned, seq_starts_with, starts_with, str_eq, string_from_chars, string_views,
    trim_chars, trim_seq, views_of,
};

verus! {

/// The candidate hits of a query, by kind.
#[derive(Debug, Clone)]
pub struct RetrievalBundle {
    pub knowledge_hits: Vec<RetrievalHit>,
    pub command_hits: Vec<RetrievalHit>,
    pub policy_hits: Vec<RetrievalHit>,
    pub memory_hits: Vec<RetrievalHit>,
}

impl Default for RetrievalBundle {
    /// Nothing retrieved.
    fn default() -> (r: Self)
        ensures
            r.knowledge_hits@.len() == 0,
            r.command_hits@.len() == 0,
            r.policy_hits@.len() == 0,
            r.memory_hits@.len() == 0,
    {
        RetrievalBundle { knowledge_hits: Vec::new(), command_hits: Vec::new(), policy_hits: Vec::new(), memory_hits: Vec::new() }
    }
}

// ---------------------------------------------------------------------------
// Tool names
// ---------------------------------------------------------------------------

/// The part of a title before its first `" -> "`.
pub open spec fn first_segment(title: Seq<char>) -> Seq<char> {
    let idx = find_from(title, " -> "@, 0);
    if idx >= 0 { title.subrange(0, idx) } else { title }
}

/// The tool a command title names: its first segment, trimmed, when it starts
/// with `tool_` or holds an underscore.
pub open spec fn extract_spec(title: Seq<char>) -> Option<Seq<char>> {
    let v = trim_seq(first_segment(title));
    if seq_starts_with(v, "tool_"@) || v.contains('_') { Some(v) } else { None }
}

/// The first segment of a title, trimmed.
pub fn first_segment_trimmed(title: &str) -> (res: Vec<char>)
    ensures
        res@ == trim_seq(first_segment(title@)),
{
    let t = chars_of(title);
    let sep = chars_of(" -> ");
    let seg = match find_first(&t, &sep) {
        Some(idx) => {
            let mut out: Vec<char> = Vec::new();
            let mut k: usize = 0;
            while k < idx
                invariant
                    k <= idx,
                    idx <= t.len(),
                    out@ == t@.subrange(0, k as int),
                decreases idx - k,
            {
                out.push(t[k]);
                assert(t@.subrange(0, k + 1) =~= t@.subrange(0, k as int).push(t@[k as int]));
                k += 1;
            }
            out
        },
        None => t,
    };
    trim_chars(&seg)
}

fn has_underscore(v: &Vec<char>) -> (r: bool)
    ensures
        r == v@.contains('_'),
{
    let mut k: usize = 0;
    while k < v.len()
        invariant
            k <= v.len(),
            forall|j: int| 0 <= j < k ==> v@[j] != '_',
        decreases v.len() - k,
    {
        if v[k] == '_' {
            assert(v@[k as int] == '_');
            return true;
        }
        k += 1;
    }
    false
}

/// The tool named by a command title, if any.
pub fn extract_tool_name(title: &str) -> (res: Option<String>)
    ensures
        res matches Some(s) ==> extract_spec(title@) == Some(s@),
        res is None ==> extract_spec(title@) is None,
{
    let v = first_segment_trimmed(title);
    if starts_with(&v, "tool_") || has_underscore(&v) {
        Some(string_from_chars(&v))
    } else {
        None
    }
}

pub open spec fn high_risk_terms() -> Seq<Seq<char>> {
    seq!["disable_firewall"@, "run_shell_command"@, "run_powershell_command"@, "reboot_system"@,
        "shutdown_system"@, "kill_process"@, "disable_service"@, "write_file"@, "delete_file"@]
}

/// A tool is high risk when its name contains a destructive operation.
pub open spec fn is_high_risk_spec(name: Seq<char>) -> bool {
    contains_any_spec(name, high_risk_terms())
}

/// Whether a tool is high risk.
pub fn is_high_risk_tool(tool_name: &str) -> (r: bool)
    ensures
        r == is_high_risk_spec(tool_name@),
{
    let t = chars_of(tool_name);
    let terms: [&str; 9] = ["disable_firewall", "run_shell_command", "run_powershell_command",
        "reboot_system", "shutdown_system", "kill_process", "disable_service", "write_file",
        "delete_file"];
    assert(views_of(terms@) =~= high_risk_terms());
    contains_any(&t, &terms)
}

// ---------------------------------------------------------------------------
// Risk
// ---------------------------------------------------------------------------

/// The risk level a policy entity key names, case-insensitively; `R0` otherwise.
pub open spec fn parse_risk_spec(raw: Seq<char>) -> RiskLevel {
    let l = lowercase_of(raw);
    if l == "r1"@ {
        RiskLevel::R1
    } else if l == "r2"@ {
        RiskLevel::R2
    } else if l == "r3"@ {
        RiskLevel::R3
    } else if l == "r4"@ {
        RiskLevel::R4
    } else {
        RiskLevel::R0
    }
}

/// Parses a risk level.
pub fn parse_risk_level(raw: &str) -> (r: RiskLevel)
    ensures
        r == parse_risk_spec(raw@),
{
    let l = lowercase_chars(raw);
    if chars_eq(&l, "r1") {
        RiskLevel::R1
    } else if chars_eq(&l, "r2") {
        RiskLevel::R2
    } else if chars_eq(&l, "r3") {
        RiskLevel::R3
    } else if chars_eq(&l, "r4") {
        RiskLevel::R4
    } else {
        RiskLevel::R0
    }
}

/// The rank of a risk level, 0 to 4.
pub open spec fn rank(r: RiskLevel) -> int {
    match r {
        RiskLevel::R0 => 0,
        RiskLevel::R1 => 1,
        RiskLevel::R2 => 2,
        RiskLevel::R3 => 3,
        RiskLevel::R4 => 4,
    }
}

/// The rank of a risk level.
pub fn risk_rank(risk: &RiskLevel) -> (r: i32)
    ensures
        r == rank(*risk),
{
    match risk {
        RiskLevel::R0 => 0,
        RiskLevel::R1 => 1,
        RiskLevel::R2 => 2,
        RiskLevel::R3 => 3,
        RiskLevel::R4 => 4,
    }
}

/// The highest risk named by the risk policies among the hits (`R0` if none).
pub open spec fn policy_risk(hits: Seq<RetrievalHit>) -> RiskLevel
    decreases hits.len(),
{
    if hits.len() == 0 {
        RiskLevel::R0
    } else {
        let prev = policy_risk(hits.drop_last());
        let h = hits.last();
        if h.source_type@ == "risk_policy"@ && h.entity_key is Some {
            let r = parse_risk_spec(h.entity_key->0@);
            if rank(r) > rank(prev) { r } else { prev }
        } else {
            prev
        }
    }
}

/// The risk of a query: the highest policy risk, raised to `R4` for unsafe
/// requests and to `R3` for sensitive operations.
pub open spec fn derive_risk_spec(category: QueryCategory, specialty: DomainSpecialty, hits: Seq<RetrievalHit>) -> RiskLevel {
    let m = policy_risk(hits);
    let m2 = if category == QueryCategory::UnsafeRequest && rank(m) < 4 { RiskLevel::R4 } else { m };
    if specialty == DomainSpecialty::SensitiveOps && rank(m2) < 3 { RiskLevel::R3 } else { m2 }
}

/// Derives the risk of a query from its analysis and the policy hits.
pub fn derive_risk_level(analysis: &QueryAnalysis, retrieval: &RetrievalBundle) -> (res: RiskLevel)
    ensures
        res == derive_risk_spec(analysis.query_category, analysis.specialty, retrieval.policy_hits@),
        analysis.specialty == DomainSpecialty::SensitiveOps ==> res == RiskLevel::R3 || res == RiskLevel::R4,
        analysis.query_category == QueryCategory::UnsafeRequest ==> res == RiskLevel::R4,
{
    let hits = &retrieval.policy_hits;
    let mut max_risk = RiskLevel::R0;
    let mut k: usize = 0;
    while k < hits.len()
        invariant
            k <= hits.len(),
            max_risk == policy_risk(hits@.take(k as int)),
        decreases hits.len() - k,
    {
        assert(hits@.take(k as int + 1).drop_last() =~= hits@.take(k as int));
        let h = &hits[k];
        if str_eq(h.source_type.as_str(), "risk_policy") {
            match &h.entity_key {
                Some(entity_key) => {
                    let risk = parse_risk_level(entity_key.as_str());
                    if risk_rank(&risk) > risk_rank(&max_risk) {
                        max_risk = risk;
                    }
                },
                None => {},
            }
        }
        k += 1;
    }
    assert(hits@.take(hits.len() as int) =~= hits@);
    if analysis.query_category == QueryCategory::UnsafeRequest && risk_rank(&max_risk) < 4 {
        max_risk = RiskLevel::R4;
    }
    if analysis.specialty == DomainSpecialty::SensitiveOps && risk_rank(&max_risk) < 3 {
        max_risk = RiskLevel::R3;
    }
    max_risk
}

// ---------------------------------------------------------------------------
// Allowed and denied tools
// ---------------------------------------------------------------------------

/// The tools named by the command hits, in order.
pub open spec fn extracted_tools(hits: Seq<RetrievalHit>) -> Seq<Seq<char>>
    decreases hits.len(),
{
    if hits.len() == 0 {
        Seq::<Seq<char>>::empty()
    } else {
        let prev = extracted_tools(hits.drop_last());
        match extract_spec(hits.last().title@) {
            Some(t) => prev.push(t),
            None => prev,
        }
    }
}

/// A tool may run at a risk level: always at `R0`/`R1`, at `R2` unless it is
/// high risk, never at `R3`/`R4`.
pub open spec fn allows(risk: RiskLevel, tool: Seq<char>) -> bool {
    match risk {
        RiskLevel::R0 | RiskLevel::R1 => true,
        RiskLevel::R2 => !is_high_risk_spec(tool),
        RiskLevel::R3 | RiskLevel::R4 => false,
    }
}

/// The tools of `tools` that `risk` allows (`keep`) or denies (`!keep`).
pub open spec fn tools_where(tools: Seq<Seq<char>>, risk: RiskLevel, keep: bool) -> Seq<Seq<char>>
    decreases tools.len(),
{
    if tools.len() == 0 {
        Seq::<Seq<char>>::empty()
    } else {
        let prev = tools_where(tools.drop_last(), risk, keep);
        if allows(risk, tools.last()) == keep { prev.push(tools.last()) } else { prev }
    }
}

fn tools_by_risk(hits: &Vec<RetrievalHit>, risk: RiskLevel, keep: bool) -> (res: Vec<String>)
    ensures
        string_views(res@) == tools_where(extracted_tools(hits@), risk, keep),
{
    let mut out: Vec<String> = Vec::new();
    let mut k: usize = 0;
    while k < hits.len()
        invariant
            k <= hits.len(),
            string_views(out@) == tools_where(extracted_tools(hits@.take(k as int)), risk, keep),
        decreases hits.len() - k,
    {
        assert(hits@.take(k as int + 1).drop_last() =~= hits@.take(k as int));
        let ghost ext = extracted_tools(hits@.take(k as int));
        match extract_tool_name(hits[k].title.as_str()) {
            Some(tool) => {
                assert(extracted_tools(hits@.take(k as int + 1)) == ext.push(tool@));
                assert(ext.push(tool@).drop_last() =~= ext);
                let allowed = match risk {
                    RiskLevel::R0 | RiskLevel::R1 => true,
                    RiskLevel::R2 => !is_high_risk_tool(tool.as_str()),
                    RiskLevel::R3 | RiskLevel::R4 => false,
                };
                if allowed == keep {
                    let ghost prev = string_views(out@);
                    out.push(tool);
                    assert(string_views(out@) =~= prev.push(tool@));
                }
            },
            None => {
                assert(extracted_tools(hits@.take(k as int + 1)) == ext);
            },
        }
        k += 1;
    }
    assert(hits@.take(hits.len() as int) =~= hits@);
    out
}

/// The tools of the command hits that the risk level allows, in order.
pub fn derive_allowed_tools(retrieval: &RetrievalBundle, risk_level: RiskLevel) -> (res: Vec<String>)
    ensures
        string_views(res@) == tools_where(extracted_tools(retrieval.command_hits@), risk_level, true),
{
    tools_by_risk(&retrieval.command_hits, risk_level, true)
}

/// The tools of the command hits that the risk level denies, in order.
pub fn derive_denied_tools(retrieval: &RetrievalBundle, risk_level: RiskLevel) -> (res: Vec<String>)
    ensures
        string_views(res@) == tools_where(extracted_tools(retrieval.command_hits@), risk_level, false),
{
    tools_by_risk(&retrieval.command_hits, risk_level, false)
}

// ---------------------------------------------------------------------------
// Mode
// ---------------------------------------------------------------------------

/// The decision mode and whether live state, a snapshot and a human are
/// required.
pub open spec fn decide_mode_spec(
    category: QueryCategory,
    level: ConfidenceLevel,
    should_ask: bool,
    risk: RiskLevel,
    has_allowed_tools: bool,
) -> (DecisionMode, bool, bool, bool) {
    if category == QueryCategory::OutOfDomain {
        (DecisionMode::Deny, false, false, false)
    } else if should_ask {
        (DecisionMode::Clarify, false, false, false)
    } else if category == QueryCategory::UnsafeRequest {
        match risk {
            RiskLevel::R4 => (DecisionMode::Deny, true, true, true),
            RiskLevel::R3 => (DecisionMode::Escalate, true, true, true),
            _ => (DecisionMode::Simulate, true, true, true),
        }
    } else if category == QueryCategory::ActionRequest {
        match level {
            ConfidenceLevel::High => match risk {
                RiskLevel::R0 | RiskLevel::R1 => (DecisionMode::Execute, has_allowed_tools, false, false),
                RiskLevel::R2 => (DecisionMode::Simulate, true, false, false),
                RiskLevel::R3 | RiskLevel::R4 => (DecisionMode::Escalate, true, true, true),
            },
            ConfidenceLevel::Medium => match risk {
                RiskLevel::R0 | RiskLevel::R1 => (DecisionMode::Simulate, true, false, false),
                _ => (DecisionMode::Escalate, true, true, true),
            },
            ConfidenceLevel::Low => (DecisionMode::Clarify, false, false, false),
        }
    } else {
        match level {
            ConfidenceLevel::High => (DecisionMode::Explain, true, false, false),
            ConfidenceLevel::Medium => (DecisionMode::Explain, false, false, false),
            ConfidenceLevel::Low => (DecisionMode::Clarify, false, false, false),
        }
    }
}

/// Chooses the decision mode.
pub fn decide_mode(
    analysis: &QueryAnalysis,
    confidence: &ConfidenceAssessment,
    risk_level: &RiskLevel,
    allowed_tools: &[String],
) -> (res: (DecisionMode, bool, bool, bool))
    ensures
        res == decide_mode_spec(analysis.query_category, confidence.level,
            confidence.should_ask_clarifying_question, *risk_level, allowed_tools.len() > 0),
{
    if analysis.query_category == QueryCategory::OutOfDomain {
        return (DecisionMode::Deny, false, false, false);
    }
    if confidence.should_ask_clarifying_question {
        return (DecisionMode::Clarify, false, false, false);
    }
    if analysis.query_category == QueryCategory::UnsafeRequest {
        return match risk_level {
            RiskLevel::R4 => (DecisionMode::Deny, true, true, true),
            RiskLevel::R3 => (DecisionMode::Escalate, true, true, true),
            _ => (DecisionMode::Simulate, true, true, true),
        };
    }
    if analysis.query_category == QueryCategory::ActionRequest {
        return match confidence.level {
            ConfidenceLevel::High => match risk_level {
                RiskLevel::R0 | RiskLevel::R1 => (DecisionMode::Execute, allowed_tools.len() > 0, false, false),
                RiskLevel::R2 => (DecisionMode::Simulate, true, false, false),
                RiskLevel::R3 | RiskLevel::R4 => (DecisionMode::Escalate, true, true, true),
            },
            ConfidenceLevel::Medium => match risk_level {
                RiskLevel::R0 | RiskLevel::R1 => (DecisionMode::Simulate, true, false, false),
                _ => (DecisionMode::Escalate, true, true, true),
            },
            ConfidenceLevel::Low => (DecisionMode::Clarify, false, false, false),
        };
    }
    match confidence.level {
        ConfidenceLevel::High => (DecisionMode::Explain, true, false, false),
        ConfidenceLevel::Medium => (DecisionMode::Explain, false, false, false),
        ConfidenceLevel::Low => (DecisionMode::Clarify, false, false, false),
    }
}

/// The reason code of a risk level.
pub open spec fn risk_code(r: RiskLevel) -> Seq<char> {
    match r {
        RiskLevel::R0 => "RISK_R0"@,
        RiskLevel::R1 => "RISK_R1"@,
        RiskLevel::R2 => "RISK_R2"@,
        RiskLevel::R3 => "RISK_R3"@,
        RiskLevel::R4 => "RISK_R4"@,
    }
}

fn risk_code_str(r: RiskLevel) -> (s: &'static str)
    ensures
        s@ == risk_code(r),
{
    match r {
        RiskLevel::R0 => "RISK_R0",
        RiskLevel::R1 => "RISK_R1",
        RiskLevel::R2 => "RISK_R2",
        RiskLevel::R3 => "RISK_R3",
        RiskLevel::R4 => "RISK_R4",
    }
}

fn clone_strings(v: &Vec<String>) -> (res: Vec<String>)
    ensures
        string_views(res@) == string_views(v@),
{
    let mut out: Vec<String> = Vec::new();
    let mut k: usize = 0;
    while k < v.len()
        invariant
            k <= v.len(),
            string_views(out@) == string_views(v@).take(k as int),
        decreases v.len() - k,
    {
        let ghost prev = string_views(out@);
        out.push(v[k].clone());
        assert(string_views(out@) =~= prev.push(v@[k as int]@));
        assert(string_views(v@).take(k as int + 1) =~= string_views(v@).take(k as int).push(v@[k as int]@));
        k += 1;
    }
    assert(string_views(v@).take(v.len() as int) =~= string_views(v@));
    out
}

/// Builds the decision on a query from its analysis, retrieved evidence and
/// confidence.
pub fn build_decision(
    analysis: &QueryAnalysis,
    retrieval: &RetrievalBundle,
    confidence: &ConfidenceAssessment,
) -> (res: DecisionEnvelope)
    ensures
        res.query_category == analysis.query_category,
        res.specialty == analysis.specialty,
        res.confidence_level == confidence.level,
        res.risk_level == derive_risk_spec(analysis.query_category, analysis.specialty,
            retrieval.policy_hits@),
        string_views(res.allowed_tools@) == tools_where(extracted_tools(retrieval.command_hits@),
            res.risk_level, true),
        string_views(res.denied_tools@) == tools_where(extracted_tools(retrieval.command_hits@),
            res.risk_level, false),
        string_views(res.reason_codes@) == string_views(confidence.reason_codes@).push(
            risk_code(res.risk_level)),
        (res.decision_mode, res.requires_live_state, res.requires_snapshot, res.requires_human)
            == decide_mode_spec(analysis.query_category, confidence.level,
            confidence.should_ask_clarifying_question, res.risk_level, res.allowed_tools.len() > 0),
        res.requires_clarification == confidence.should_ask_clarifying_question,
        analysis.specialty == DomainSpecialty::SensitiveOps ==> (res.risk_level == RiskLevel::R3 || res.risk_level == RiskLevel::R4)
            && res.decision_mode != DecisionMode::Execute && res.allowed_tools@.len() == 0,
        analysis.specialty == DomainSpecialty::SensitiveOps && analysis.query_category == QueryCategory::ActionRequest
            && confidence.level == ConfidenceLevel::High && !confidence.should_ask_clarifying_question
            ==> res.decision_mode == DecisionMode::Escalate && res.requires_human,
{
    let risk_level = derive_risk_level(analysis, retrieval);
    let allowed_tools = derive_allowed_tools(retrieval, risk_level);
    let denied_tools = derive_denied_tools(retrieval, risk_level);
    let mut reason_codes = clone_strings(&confidence.reason_codes);
    let ghost prev = string_views(reason_codes@);
    reason_codes.push(owned(risk_code_str(risk_level)));
    assert(string_views(reason_codes@) =~= prev.push(risk_code(risk_level)));
    let (decision_mode, requires_live_state, requires_snapshot, requires_human) =
        decide_mode(analysis, confidence, &risk_level, allowed_tools.as_slice());
    proof {
        if analysis.specialty == DomainSpecialty::SensitiveOps {
            lemma_sensitive_ops_at_least_r3(analysis.query_category, retrieval.policy_hits@, confidence.level,
                confidence.should_ask_clarifying_question, allowed_tools@.len() > 0, extracted_tools(retrieval.command_hits@));
            assert(string_views(allowed_tools@).len() == allowed_tools@.len());
        }
    }
    DecisionEnvelope {
        query_category: analysis.query_category,
        specialty: analysis.specialty,
        confidence_level: confidence.level,
        risk_level,
        decision_mode,
        requires_clarification: confidence.should_ask_clarifying_question,
        requires_live_state,
        requires_snapshot,
        requires_human,
        allowed_tools,
        denied_tools,
        reason_codes,
    }
}

} // verus!

verus! {

// ---------------------------------------------------------------------------
// Laws
// ---------------------------------------------------------------------------

/// Allowed and denied tools split the candidate tools: every candidate lands in
/// exactly one of the two lists, and no tool is both allowed and denied.
pub proof fn lemma_allowed_denied_partition(tools: Seq<Seq<char>>, risk: RiskLevel)
    ensures
        tools_where(tools, risk, true).to_multiset().add(tools_where(tools, risk, false).to_multiset())
            == tools.to_multiset(),
        forall|t: Seq<char>| tools_where(tools, risk, true).contains(t)
            ==> !tools_where(tools, risk, false).contains(t),
    decreases tools.len(),
{
    broadcast use vstd::seq_lib::group_to_multiset_ensures;
    if tools.len() > 0 {
        lemma_allowed_denied_partition(tools.drop_last(), risk);
        assert(tools =~= tools.drop_last().push(tools.last()));
        lemma_where_members(tools, risk, true);
        lemma_where_members(tools, risk, false);
    } else {
        assert(tools_where(tools, risk, true) =~= Seq::<Seq<char>>::empty());
        assert(tools_where(tools, risk, false) =~= Seq::<Seq<char>>::empty());
    }
    assert forall|t: Seq<char>| tools_where(tools, risk, true).contains(t)
        implies !tools_where(tools, risk, false).contains(t) by {
        lemma_where_members(tools, risk, true);
        lemma_where_members(tools, risk, false);
    }
}

/// Every tool kept by `tools_where` is a candidate with the requested verdict.
pub proof fn lemma_where_members(tools: Seq<Seq<char>>, risk: RiskLevel, keep: bool)
    ensures
        forall|t: Seq<char>| tools_where(tools, risk, keep).contains(t)
            ==> tools.contains(t) && allows(risk, t) == keep,
    decreases tools.len(),
{
    if tools.len() > 0 {
        lemma_where_members(tools.drop_last(), risk, keep);
        let prev = tools_where(tools.drop_last(), risk, keep);
        assert forall|t: Seq<char>| tools_where(tools, risk, keep).contains(t)
            implies tools.contains(t) && allows(risk, t) == keep by {
            if prev.contains(t) {
                let i = choose|i: int| 0 <= i < prev.len() && prev[i] == t;
                assert(tools.drop_last().contains(t));
                let j = choose|j: int| 0 <= j < tools.drop_last().len() && tools.drop_last()[j] == t;
                assert(tools[j] == t);
            } else {
                let i = choose|i: int| 0 <= i < tools_where(tools, risk, keep).len()
                    && tools_where(tools, risk, keep)[i] == t;
                assert(t == tools.last());
                assert(tools[tools.len() - 1] == t);
            }
        }
    }
}

/// A decision executes only an action request held with high confidence, at
/// risk `R0` or `R1`, with no clarification pending.
pub proof fn lemma_execute_requires_low_risk(
    category: QueryCategory,
    level: ConfidenceLevel,
    should_ask: bool,
    risk: RiskLevel,
    has_allowed_tools: bool,
)
    requires
        decide_mode_spec(category, level, should_ask, risk, has_allowed_tools).0 == DecisionMode::Execute,
    ensures
        category == QueryCategory::ActionRequest,
        level == ConfidenceLevel::High,
        rank(risk) <= 1,
        !should_ask,
{
}

/// An unsafe request is never executed, simulated, escalated or explained: it
/// is denied, or clarified when the confidence assessment asks for it.
pub proof fn lemma_unsafe_request_denied(
    specialty: DomainSpecialty,
    hits: Seq<RetrievalHit>,
    level: ConfidenceLevel,
    should_ask: bool,
    has_allowed_tools: bool,
)
    ensures
        derive_risk_spec(QueryCategory::UnsafeRequest, specialty, hits) == RiskLevel::R4,
        ({
            let mode = decide_mode_spec(QueryCategory::UnsafeRequest, level, should_ask,
                derive_risk_spec(QueryCategory::UnsafeRequest, specialty, hits), has_allowed_tools).0;
            mode == DecisionMode::Deny || (should_ask && mode == DecisionMode::Clarify)
        }),
{
}

/// At risk `R3` or `R4` no tool is allowed.
pub proof fn lemma_high_risk_allows_nothing(tools: Seq<Seq<char>>, risk: RiskLevel)
    requires
        rank(risk) >= 3,
    ensures
        tools_where(tools, risk, true).len() == 0,
    decreases tools.len(),
{
    if tools.len() > 0 {
        lemma_high_risk_allows_nothing(tools.drop_last(), risk);
    }
}


/// Sensitive operations are never below risk `R3`, whatever the policy
/// hits; so such a decision never executes, allows no tool, and an action
/// request held with high confidence and no pending question is escalated
/// to a human. An unsafe request is always at `R4`.
pub proof fn lemma_sensitive_ops_at_least_r3(
    category: QueryCategory,
    hits: Seq<RetrievalHit>,
    level: ConfidenceLevel,
    should_ask: bool,
    has_allowed_tools: bool,
    tools: Seq<Seq<char>>,
)
    ensures
        ({
            let r = derive_risk_spec(category, DomainSpecialty::SensitiveOps, hits);
            let d = decide_mode_spec(category, level, should_ask, r, has_allowed_tools);
            &&& r == RiskLevel::R3 || r == RiskLevel::R4
            &&& d.0 != DecisionMode::Execute
            &&& tools_where(tools, r, true).len() == 0
            &&& category == QueryCategory::ActionRequest && level == ConfidenceLevel::High && !should_ask
                ==> d.0 == DecisionMode::Escalate && d.3
        }),
        derive_risk_spec(QueryCategory::UnsafeRequest, DomainSpecialty::SensitiveOps, hits) == RiskLevel::R4,
{
    let r = derive_risk_spec(category, DomainSpecialty::SensitiveOps, hits);
    lemma_high_risk_allows_nothing(tools, r);
}


proof fn lemma_policy_risk_max(hits: Seq<RetrievalHit>)
    ensures
        forall|i: int| 0 <= i < hits.len() && (#[trigger] hits[i]).source_type@ == "risk_policy"@ && hits[i].entity_key is Some
            ==> rank(parse_risk_spec(hits[i].entity_key->0@)) <= rank(policy_risk(hits)),
        (forall|i: int| 0 <= i < hits.len() ==> !((#[trigger] hits[i]).source_type@ == "risk_policy"@ && hits[i].entity_key is Some))
            ==> policy_risk(hits) == RiskLevel::R0,
    decreases hits.len(),
{
    if hits.len() > 0 {
        lemma_policy_risk_max(hits.drop_last());
        assert forall|i: int| 0 <= i < hits.len() && (#[trigger] hits[i]).source_type@ == "risk_policy"@ && hits[i].entity_key is Some
            implies rank(parse_risk_spec(hits[i].entity_key->0@)) <= rank(policy_risk(hits)) by {
            if i < hits.len() - 1 {
                assert(hits.drop_last()[i] == hits[i]);
            }
        }
        if forall|i: int| 0 <= i < hits.len() ==> !((#[trigger] hits[i]).source_type@ == "risk_policy"@ && hits[i].entity_key is Some) {
            assert forall|i: int| 0 <= i < hits.drop_last().len() implies
                !((#[trigger] hits.drop_last()[i]).source_type@ == "risk_policy"@ && hits.drop_last()[i].entity_key is Some) by {
                assert(hits.drop_last()[i] == hits[i]);
            }
            assert(!(hits[hits.len() - 1].source_type@ == "risk_policy"@ && hits[hits.len() - 1].entity_key is Some));
        }
    }
}

/// The risk of a query is at least the risk every risk policy among the hits
/// names; with no risk policy it is `R0` for an ordinary query in an ordinary
/// specialty.
pub proof fn lemma_risk_dominates_policies(category: QueryCategory, specialty: DomainSpecialty, hits: Seq<RetrievalHit>)
    ensures
        forall|i: int| 0 <= i < hits.len() && (#[trigger] hits[i]).source_type@ == "risk_policy"@ && hits[i].entity_key is Some
            ==> rank(parse_risk_spec(hits[i].entity_key->0@)) <= rank(derive_risk_spec(category, specialty, hits)),
        (forall|i: int| 0 <= i < hits.len() ==> !((#[trigger] hits[i]).source_type@ == "risk_policy"@ && hits[i].entity_key is Some))
            && category != QueryCategory::UnsafeRequest && specialty != DomainSpecialty::SensitiveOps
            ==> derive_risk_spec(category, specialty, hits) == RiskLevel::R0,
{
    lemma_policy_risk_max(hits);
}

/// How a decision is taken: out-of-domain queries are denied; otherwise a
/// pending question is clarified; an escalation always requires a human; a
/// low-confidence query is clarified unless it is unsafe; and a confident
/// action request at risk `R0` or `R1` with nothing to ask is executed.
pub proof fn lemma_decision_modes(
    category: QueryCategory,
    level: ConfidenceLevel,
    should_ask: bool,
    risk: RiskLevel,
    has_allowed_tools: bool,
)
    ensures
        ({
            let d = decide_mode_spec(category, level, should_ask, risk, has_allowed_tools);
            &&& category == QueryCategory::OutOfDomain ==> d.0 == DecisionMode::Deny && !d.3
            &&& category != QueryCategory::OutOfDomain && should_ask ==> d.0 == DecisionMode::Clarify
            &&& d.0 == DecisionMode::Escalate ==> d.3
            &&& level == ConfidenceLevel::Low && category != QueryCategory::UnsafeRequest
                ==> d.0 == DecisionMode::Clarify || d.0 == DecisionMode::Deny
            &&& category == QueryCategory::ActionRequest && level == ConfidenceLevel::High && !should_ask
                && (risk == RiskLevel::R0 || risk == RiskLevel::R1) ==> d.0 == DecisionMode::Execute
        }),
{
}


/// At risk `R0` or `R1` every candidate tool is allowed and none denied.
pub proof fn lemma_low_risk_allows_everything(tools: Seq<Seq<char>>, risk: RiskLevel)
    requires
        risk == RiskLevel::R0 || risk == RiskLevel::R1,
    ensures
        tools_where(tools, risk, true) == tools,
        tools_where(tools, risk, false).len() == 0,
    decreases tools.len(),
{
    if tools.len() > 0 {
        lemma_low_risk_allows_everything(tools.drop_last(), risk);
        assert(tools_where(tools, risk, true) =~= tools);
    } else {
        assert(tools_where(tools, risk, true) =~= tools);
    }
}

} // verus!
