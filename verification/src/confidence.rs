//! The evidence behind a confidence assessment: which findings count for
//! or against an answer, whether the retrieved context is used, and whether
//! a clarifying question is owed. The weighting of the findings into a
//! score is done by the caller.

use vstd::prelude::*;
use crate::models::{DomainSpecialty, QueryAnalysis, QueryCategory};
use crate::text::str_eq;

verus! {

/// Whether a query is too short or too vague to be answered precisely.
pub open spec fn low_precision(c: QueryCategory) -> bool {
    c == QueryCategory::Short || c == QueryCategory::Ambiguous || c == QueryCategory::OutOfDomain
}

/// The findings on what was retrieved.
pub open spec fn retrieval_reasons(knowledge: bool, commands: bool, policies: bool) -> Seq<Seq<char>> {
    seq![if knowledge { "KNOWLEDGE_EVIDENCE"@ } else { "KNOWLEDGE_MISSING"@ }]
        + (if commands { seq!["COMMAND_EVIDENCE"@] } else { Seq::empty() })
        + seq![if policies { "POLICY_EVIDENCE"@ } else { "POLICY_MISSING"@ }]
}

/// The findings on the query itself.
pub open spec fn query_reasons(a: QueryAnalysis) -> Seq<Seq<char>> {
    seq![if a.specialty != DomainSpecialty::Unknown { "SPECIALTY_RESOLVED"@ } else { "SPECIALTY_UNKNOWN"@ }]
        + (if a.entities@.len() > 0 { seq!["ENTITY_RESOLVED"@] } else { Seq::empty() })
        + (if a.urgency@ == "high"@ { seq!["URGENCY_REQUIRES_CAUTION"@] } else { Seq::empty() })
        + (if a.requires_clarification { seq!["CLARIFICATION_REQUIRED"@] } else { Seq::empty() })
        + (if low_precision(a.query_category) { seq!["QUERY_LOW_PRECISION"@] } else { Seq::empty() })
}

/// The findings of an assessment, in the order they are weighed.
pub open spec fn confidence_reasons_spec(a: QueryAnalysis, knowledge: bool, commands: bool, policies: bool) -> Seq<Seq<char>> {
    retrieval_reasons(knowledge, commands, policies) + query_reasons(a)
}

/// Whether a clarifying question is owed.
pub open spec fn must_clarify(a: QueryAnalysis, knowledge: bool, commands: bool) -> bool {
    a.requires_clarification || a.query_category == QueryCategory::Short || a.query_category == QueryCategory::Ambiguous
        || (!knowledge && !commands)
}

fn push_code(out: &mut Vec<String>, code: &str)
    ensures
        final(out)@.map_values(|s: String| s@) == old(out)@.map_values(|s: String| s@).push(code@),
{
    let ghost before = out@;
    out.push(String::from_str(code));
    assert(out@.map_values(|s: String| s@) =~= before.map_values(|s: String| s@).push(code@));
}

/// The findings of an assessment, whether the retrieved context is used
/// (when anything was retrieved) and whether a clarifying question is owed.
pub fn confidence_evidence(analysis: &QueryAnalysis, knowledge: bool, commands: bool, policies: bool) -> (r: (Vec<String>, bool, bool))
    ensures
        r.0@.map_values(|s: String| s@) == confidence_reasons_spec(*analysis, knowledge, commands, policies),
        r.1 == (knowledge || commands || policies),
        r.2 == must_clarify(*analysis, knowledge, commands),
{
    let mut codes: Vec<String> = Vec::new();
    proof { assert(codes@.map_values(|s: String| s@) =~= Seq::<Seq<char>>::empty()); }
    push_code(&mut codes, if knowledge { "KNOWLEDGE_EVIDENCE" } else { "KNOWLEDGE_MISSING" });
    if commands {
        push_code(&mut codes, "COMMAND_EVIDENCE");
    }
    push_code(&mut codes, if policies { "POLICY_EVIDENCE" } else { "POLICY_MISSING" });
    assert(codes@.map_values(|s: String| s@) =~= retrieval_reasons(knowledge, commands, policies));
    query_codes(&mut codes, analysis);
    let ask = analysis.requires_clarification || clarifies(&analysis.query_category) || (!knowledge && !commands);
    (codes, knowledge || commands || policies, ask)
}

fn clarifies(c: &QueryCategory) -> (r: bool)
    ensures
        r == (*c == QueryCategory::Short || *c == QueryCategory::Ambiguous),
{
    match c {
        QueryCategory::Short => true,
        QueryCategory::Ambiguous => true,
        _ => false,
    }
}

fn is_low_precision(c: &QueryCategory) -> (r: bool)
    ensures
        r == low_precision(*c),
{
    match c {
        QueryCategory::Short => true,
        QueryCategory::Ambiguous => true,
        QueryCategory::OutOfDomain => true,
        _ => false,
    }
}

fn query_codes(codes: &mut Vec<String>, analysis: &QueryAnalysis)
    ensures
        final(codes)@.map_values(|s: String| s@) == old(codes)@.map_values(|s: String| s@) + query_reasons(*analysis),
{
    let ghost base = codes@.map_values(|s: String| s@);
    let resolved = match analysis.specialty {
        DomainSpecialty::Unknown => false,
        _ => true,
    };
    push_code(codes, if resolved { "SPECIALTY_RESOLVED" } else { "SPECIALTY_UNKNOWN" });
    let ghost p1 = seq![if analysis.specialty != DomainSpecialty::Unknown { "SPECIALTY_RESOLVED"@ } else { "SPECIALTY_UNKNOWN"@ }];
    assert(codes@.map_values(|s: String| s@) =~= base + p1);
    if analysis.entities.len() > 0 {
        push_code(codes, "ENTITY_RESOLVED");
    }
    let ghost p2 = p1 + (if analysis.entities@.len() > 0 { seq!["ENTITY_RESOLVED"@] } else { Seq::empty() });
    assert(codes@.map_values(|s: String| s@) =~= base + p2);
    if str_eq(analysis.urgency.as_str(), "high") {
        push_code(codes, "URGENCY_REQUIRES_CAUTION");
    }
    let ghost p3 = p2 + (if analysis.urgency@ == "high"@ { seq!["URGENCY_REQUIRES_CAUTION"@] } else { Seq::empty() });
    assert(codes@.map_values(|s: String| s@) =~= base + p3);
    if analysis.requires_clarification {
        push_code(codes, "CLARIFICATION_REQUIRED");
    }
    let ghost p4 = p3 + (if analysis.requires_clarification { seq!["CLARIFICATION_REQUIRED"@] } else { Seq::empty() });
    assert(codes@.map_values(|s: String| s@) =~= base + p4);
    if is_low_precision(&analysis.query_category) {
        push_code(codes, "QUERY_LOW_PRECISION");
    }
    assert(codes@.map_values(|s: String| s@) =~= base + query_reasons(*analysis));
}

} // verus!
