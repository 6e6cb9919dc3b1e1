//! The trace of one request: what was asked, what was retrieved, how
//! confident the assistant was, what it decided and what went wrong.

use vstd::prelude::*;
use crate::decision_engine::RetrievalBundle;
use crate::memory::{confidence_level_code, confidence_level_code_str, decision_mode_code, decision_mode_code_str};
use crate::models::{ConfidenceAssessment, DecisionEnvelope, DecisionMode, QueryAnalysis, QueryCategory, RetrievalHit};
use crate::retrieval::{query_category_code, query_category_code_spec, specialty_code, specialty_code_spec};
use crate::text::{join_seqs, join_strings, str_eq, string_views};

verus! {

/// A retrieved item as traced, with whether it went into the context; its
/// scores stay with the caller.
#[derive(Debug, Clone)]
pub struct TraceRetrievalHit {
    pub source_type: String,
    pub source_id: String,
    pub title: String,
    pub entity_key: Option<String>,
    pub used_in_context: bool,
}

/// The confidence part of a trace; the numeric score stays with the caller.
#[derive(Debug, Clone)]
pub struct TraceConfidenceDraft {
    pub confidence_level: String,
    pub should_use_context: bool,
    pub should_ask_clarifying_question: bool,
}

/// The decision part of a trace.
#[derive(Debug, Clone)]
pub struct TraceDecisionDraft {
    pub decision_mode: String,
    pub reason_text: String,
    pub used_context: bool,
    pub used_live_state: bool,
    pub used_tools: bool,
    pub escalated: bool,
}

/// An error recorded in a trace.
#[derive(Debug, Clone)]
pub struct TraceErrorDraft {
    pub stage_name: String,
    pub error_code: String,
    pub error_message: String,
}

/// The trace of one request.
#[derive(Debug, Clone)]
pub struct TraceDraft {
    pub trace_id: String,
    pub session_id: Option<String>,
    pub user_message: String,
    pub normalized_query: String,
    pub query_category: String,
    pub specialty_detected: String,
    pub requires_live_state: bool,
    pub latency_ms_total: i64,
    pub retrieval_hits: Vec<TraceRetrievalHit>,
    pub confidence: Option<TraceConfidenceDraft>,
    pub decision: Option<TraceDecisionDraft>,
    pub errors: Vec<TraceErrorDraft>,
}

pub open spec fn opt_text(o: Option<String>) -> Option<Seq<char>> {
    match o {
        Some(s) => Some(s@),
        None => None,
    }
}

/// A traced hit as plain values.
pub open spec fn trace_hit_view(h: TraceRetrievalHit) -> (Seq<char>, Seq<char>, Seq<char>, Option<Seq<char>>, bool) {
    (h.source_type@, h.source_id@, h.title@, opt_text(h.entity_key), h.used_in_context)
}

pub open spec fn trace_hit_views(hs: Seq<TraceRetrievalHit>) -> Seq<(Seq<char>, Seq<char>, Seq<char>, Option<Seq<char>>, bool)> {
    hs.map_values(|h: TraceRetrievalHit| trace_hit_view(h))
}

/// A retrieval hit traced with the given use.
pub open spec fn traced(hit: RetrievalHit, used: bool) -> (Seq<char>, Seq<char>, Seq<char>, Option<Seq<char>>, bool) {
    (hit.source_type@, hit.source_id@, hit.title@, opt_text(hit.entity_key), used)
}

pub open spec fn traced_all(hits: Seq<RetrievalHit>, used: bool) -> Seq<(Seq<char>, Seq<char>, Seq<char>, Option<Seq<char>>, bool)> {
    hits.map_values(|h: RetrievalHit| traced(h, used))
}

/// The reasons of the decision followed by those of the confidence
/// assessment not already listed.
pub open spec fn merge_reasons(base: Seq<Seq<char>>, extra: Seq<Seq<char>>) -> Seq<Seq<char>>
    decreases extra.len(),
{
    if extra.len() == 0 {
        base
    } else {
        let prev = merge_reasons(base, extra.drop_last());
        if prev.contains(extra.last()) { prev } else { prev.push(extra.last()) }
    }
}

/// Whether a request used tools: some were allowed and it asked for an action.
pub open spec fn used_tools_spec(a: QueryAnalysis, d: DecisionEnvelope) -> bool {
    d.allowed_tools@.len() > 0 && a.query_category == QueryCategory::ActionRequest
}

/// Whether a request was escalated: a human is required, or the decision is
/// to escalate or deny.
pub open spec fn escalated_spec(d: DecisionEnvelope) -> bool {
    d.requires_human || d.decision_mode == DecisionMode::Escalate || d.decision_mode == DecisionMode::Deny
}

impl TraceRetrievalHit {
    /// Traces a retrieved item.
    pub fn from_hit(hit: &RetrievalHit, used_in_context: bool) -> (r: Self)
        ensures
            trace_hit_view(r) == traced(*hit, used_in_context),
    {
        TraceRetrievalHit {
            source_type: hit.source_type.clone(),
            source_id: hit.source_id.clone(),
            title: hit.title.clone(),
            entity_key: match &hit.entity_key {
                Some(k) => Some(k.clone()),
                None => None,
            },
            used_in_context,
        }
    }
}

impl TraceConfidenceDraft {
    /// Traces a confidence assessment: its level as a lowercase code and its
    /// two flags.
    pub fn from_confidence(confidence: &ConfidenceAssessment) -> (r: Self)
        ensures
            r.confidence_level@ == confidence_level_code(confidence.level),
            r.should_use_context == confidence.should_use_context,
            r.should_ask_clarifying_question == confidence.should_ask_clarifying_question,
    {
        TraceConfidenceDraft {
            confidence_level: String::from_str(confidence_level_code_str(&confidence.level)),
            should_use_context: confidence.should_use_context,
            should_ask_clarifying_question: confidence.should_ask_clarifying_question,
        }
    }
}

fn contains_text(v: &Vec<String>, s: &str) -> (r: bool)
    ensures
        r == string_views(v@).contains(s@),
{
    let mut i: usize = 0;
    while i < v.len()
        invariant
            i <= v.len(),
            forall|j: int| 0 <= j < i ==> string_views(v@)[j] != s@,
        decreases v.len() - i,
    {
        if str_eq(v[i].as_str(), s) {
            assert(string_views(v@)[i as int] == s@);
            return true;
        }
        i += 1;
    }
    false
}

impl TraceDecisionDraft {
    /// Traces a decision: its mode as a lowercase code, its reasons and those
    /// of the confidence assessment joined by `", "` without repeats, and
    /// what it used.
    pub fn from_decision(analysis: &QueryAnalysis, decision: &DecisionEnvelope, confidence: &ConfidenceAssessment) -> (r: Self)
        ensures
            r.decision_mode@ == decision_mode_code(decision.decision_mode),
            r.reason_text@ == join_seqs(merge_reasons(string_views(decision.reason_codes@), string_views(confidence.reason_codes@)), ", "@),
            r.used_context == confidence.should_use_context,
            r.used_live_state == decision.requires_live_state,
            r.used_tools == used_tools_spec(*analysis, *decision),
            r.escalated == escalated_spec(*decision),
    {
        let mut reasons: Vec<String> = Vec::new();
        let mut i: usize = 0;
        while i < decision.reason_codes.len()
            invariant
                i <= decision.reason_codes.len(),
                string_views(reasons@) == string_views(decision.reason_codes@).take(i as int),
            decreases decision.reason_codes.len() - i,
        {
            let ghost before = reasons@;
            let c = decision.reason_codes[i].clone();
            reasons.push(c);
            assert(string_views(reasons@) =~= string_views(before).push(c@));
            assert(string_views(decision.reason_codes@).take(i as int + 1) =~= string_views(decision.reason_codes@).take(i as int).push(c@));
            i += 1;
        }
        assert(string_views(decision.reason_codes@).take(decision.reason_codes.len() as int) =~= string_views(decision.reason_codes@));
        let ghost base = string_views(decision.reason_codes@);
        let mut k: usize = 0;
        while k < confidence.reason_codes.len()
            invariant
                k <= confidence.reason_codes.len(),
                string_views(reasons@) == merge_reasons(base, string_views(confidence.reason_codes@).take(k as int)),
            decreases confidence.reason_codes.len() - k,
        {
            let ghost extra = string_views(confidence.reason_codes@);
            assert(extra.take(k as int + 1).drop_last() =~= extra.take(k as int));
            assert(extra.take(k as int + 1).last() == extra[k as int]);
            if !contains_text(&reasons, confidence.reason_codes[k].as_str()) {
                let ghost before = reasons@;
                let c = confidence.reason_codes[k].clone();
                reasons.push(c);
                assert(string_views(reasons@) =~= string_views(before).push(c@));
            }
            k += 1;
        }
        assert(string_views(confidence.reason_codes@).take(confidence.reason_codes.len() as int) =~= string_views(confidence.reason_codes@));
        let is_action = match analysis.query_category {
            QueryCategory::ActionRequest => true,
            _ => false,
        };
        let escalating = match decision.decision_mode {
            DecisionMode::Escalate | DecisionMode::Deny => true,
            _ => false,
        };
        TraceDecisionDraft {
            decision_mode: String::from_str(decision_mode_code_str(&decision.decision_mode)),
            reason_text: join_strings(&reasons, ", "),
            used_context: confidence.should_use_context,
            used_live_state: decision.requires_live_state,
            used_tools: decision.allowed_tools.len() > 0 && is_action,
            escalated: decision.requires_human || escalating,
        }
    }
}

fn push_traced(out: &mut Vec<TraceRetrievalHit>, hits: &Vec<RetrievalHit>, used: bool)
    ensures
        trace_hit_views(final(out)@) == trace_hit_views(old(out)@) + traced_all(hits@, used),
{
    let ghost start = trace_hit_views(out@);
    let mut i: usize = 0;
    while i < hits.len()
        invariant
            i <= hits.len(),
            trace_hit_views(out@) == start + traced_all(hits@.take(i as int), used),
        decreases hits.len() - i,
    {
        let ghost before = out@;
        let h = TraceRetrievalHit::from_hit(&hits[i], used);
        out.push(h);
        assert(trace_hit_views(out@) =~= trace_hit_views(before).push(trace_hit_view(h)));
        assert(traced_all(hits@.take(i as int + 1), used) =~= traced_all(hits@.take(i as int), used).push(traced(hits@[i as int], used)));
        i += 1;
    }
    assert(hits@.take(hits.len() as int) =~= hits@);
}

/// The trace of a request: its identity and texts, its category and
/// specialty codes, every retrieved item (memory items marked as unused),
/// the confidence and decision parts, and no errors yet.
pub fn build_trace(
    trace_id: &str,
    session_id: Option<&str>,
    user_message: &str,
    analysis: &QueryAnalysis,
    retrieval: &RetrievalBundle,
    confidence: &ConfidenceAssessment,
    decision: &DecisionEnvelope,
    latency_ms_total: i64,
) -> (r: TraceDraft)
    ensures
        r.trace_id@ == trace_id@,
        opt_text(r.session_id) == (match session_id { Some(s) => Some(s@), None => None::<Seq<char>> }),
        r.user_message@ == user_message@,
        r.normalized_query@ == analysis.normalized_text@,
        r.query_category@ == query_category_code_spec(analysis.query_category),
        r.specialty_detected@ == specialty_code_spec(analysis.specialty),
        r.requires_live_state == decision.requires_live_state,
        r.latency_ms_total == latency_ms_total,
        trace_hit_views(r.retrieval_hits@) == traced_all(retrieval.knowledge_hits@, true) + traced_all(retrieval.command_hits@, true)
            + traced_all(retrieval.policy_hits@, true) + traced_all(retrieval.memory_hits@, false),
        r.confidence matches Some(c) && c.confidence_level@ == confidence_level_code(confidence.level)
            && c.should_use_context == confidence.should_use_context
            && c.should_ask_clarifying_question == confidence.should_ask_clarifying_question,
        r.decision matches Some(t) && t.decision_mode@ == decision_mode_code(decision.decision_mode)
            && t.reason_text@ == join_seqs(merge_reasons(string_views(decision.reason_codes@), string_views(confidence.reason_codes@)), ", "@)
            && t.used_context == confidence.should_use_context
            && t.used_live_state == decision.requires_live_state
            && t.used_tools == used_tools_spec(*analysis, *decision)
            && t.escalated == escalated_spec(*decision),
        r.errors@.len() == 0,
{
    let mut hits: Vec<TraceRetrievalHit> = Vec::new();
    push_traced(&mut hits, &retrieval.knowledge_hits, true);
    push_traced(&mut hits, &retrieval.command_hits, true);
    push_traced(&mut hits, &retrieval.policy_hits, true);
    push_traced(&mut hits, &retrieval.memory_hits, false);
    assert(trace_hit_views(Seq::<TraceRetrievalHit>::empty()) =~= Seq::empty());
    TraceDraft {
        trace_id: String::from_str(trace_id),
        session_id: match session_id {
            Some(s) => Some(String::from_str(s)),
            None => None,
        },
        user_message: String::from_str(user_message),
        normalized_query: analysis.normalized_text.clone(),
        query_category: String::from_str(query_category_code(&analysis.query_category)),
        specialty_detected: String::from_str(specialty_code(&analysis.specialty)),
        requires_live_state: decision.requires_live_state,
        latency_ms_total,
        retrieval_hits: hits,
        confidence: Some(TraceConfidenceDraft::from_confidence(confidence)),
        decision: Some(TraceDecisionDraft::from_decision(analysis, decision, confidence)),
        errors: Vec::new(),
    }
}

/// Records an error at the end of a trace; nothing else changes.
pub fn append_error(trace: &mut TraceDraft, stage_name: &str, error_code: &str, error_message: &str)
    ensures
        final(trace).errors@.len() == old(trace).errors@.len() + 1,
        forall|i: int| 0 <= i < old(trace).errors@.len() ==> final(trace).errors@[i] == old(trace).errors@[i],
        final(trace).errors@.last().stage_name@ == stage_name@,
        final(trace).errors@.last().error_code@ == error_code@,
        final(trace).errors@.last().error_message@ == error_message@,
        final(trace).trace_id == old(trace).trace_id,
        final(trace).session_id == old(trace).session_id,
        final(trace).user_message == old(trace).user_message,
        final(trace).normalized_query == old(trace).normalized_query,
        final(trace).query_category == old(trace).query_category,
        final(trace).specialty_detected == old(trace).specialty_detected,
        final(trace).requires_live_state == old(trace).requires_live_state,
        final(trace).latency_ms_total == old(trace).latency_ms_total,
        final(trace).retrieval_hits == old(trace).retrieval_hits,
        final(trace).confidence == old(trace).confidence,
        final(trace).decision == old(trace).decision,
{
    trace.errors.push(TraceErrorDraft {
        stage_name: String::from_str(stage_name),
        error_code: String::from_str(error_code),
        error_message: String::from_str(error_message),
    });
}

} // verus!
