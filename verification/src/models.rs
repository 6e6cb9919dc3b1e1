//! Shared vocabulary of the retrieval-augmented decision pipeline.

use vstd::prelude::*;

verus! {

/// How a user query is categorized before any decision is made.
#[derive(Debug, Clone, Copy, PartialEq, Eq, Structural)]
pub enum QueryCategory {
    Specific,
    Short,
    Ambiguous,
    SymptomBased,
    ActionRequest,
    UnsafeRequest,
    OutOfDomain,
}

/// The technical domain a query belongs to.
#[derive(Debug, Clone, Copy, PartialEq, Eq, Structural)]
pub enum DomainSpecialty {
    System,
    Telemetry,
    Network,
    Processes,
    Services,
    Maintenance,
    Security,
    Drivers,
    Filesystem,
    Audit,
    Performance,
    Software,
    SensitiveOps,
    Megaboss,
    Unknown,
}

/// Confidence band of an assessment.
#[derive(Debug, Clone, Copy, PartialEq, Eq, Structural)]
pub enum ConfidenceLevel {
    High,
    Medium,
    Low,
}

/// What the assistant decides to do with a query.
#[derive(Debug, Clone, Copy, PartialEq, Eq, Structural)]
pub enum DecisionMode {
    Clarify,
    Explain,
    Simulate,
    Execute,
    Escalate,
    Deny,
}

/// Operational risk of an action, from harmless (`R0`) to destructive (`R4`).
#[derive(Debug, Clone, Copy, PartialEq, Eq, Structural)]
pub enum RiskLevel {
    R0,
    R1,
    R2,
    R3,
    R4,
}

/// The result of analyzing a query. The ambiguity score is kept in hundredths
/// (0..=100): every contribution to it is a whole number of hundredths.
#[derive(Debug, Clone)]
pub struct QueryAnalysis {
    pub normalized_text: String,
    pub query_category: QueryCategory,
    pub specialty: DomainSpecialty,
    pub urgency: String,
    pub symptoms: Vec<String>,
    pub entities: Vec<String>,
    pub ambiguity_pct: u32,
    pub requires_clarification: bool,
}

/// One retrieved item (knowledge chunk, command, policy or memory), by the
/// fields that routing and risk decisions read; its scores stay with the caller.
#[derive(Debug, Clone)]
pub struct RetrievalHit {
    pub source_type: String,
    pub source_id: String,
    pub title: String,
    pub specialty: DomainSpecialty,
    pub entity_key: Option<String>,
    pub content: String,
}

/// A confidence assessment, by the fields that decisions read; its numeric
/// score stays with the caller.
#[derive(Debug, Clone)]
pub struct ConfidenceAssessment {
    pub level: ConfidenceLevel,
    pub reason_codes: Vec<String>,
    pub should_use_context: bool,
    pub should_ask_clarifying_question: bool,
}

/// The decision taken on a query; the numeric confidence score stays with the
/// caller.
#[derive(Debug, Clone)]
pub struct DecisionEnvelope {
    pub query_category: QueryCategory,
    pub specialty: DomainSpecialty,
    pub confidence_level: ConfidenceLevel,
    pub risk_level: RiskLevel,
    pub decision_mode: DecisionMode,
    pub requires_clarification: bool,
    pub requires_live_state: bool,
    pub requires_snapshot: bool,
    pub requires_human: bool,
    pub allowed_tools: Vec<String>,
    pub denied_tools: Vec<String>,
    pub reason_codes: Vec<String>,
}

/// Settings of the local retrieval store.
#[derive(Debug, Clone)]
pub struct RagConfig {
    pub enabled: bool,
    pub db_filename: String,
    pub migrations_dir: String,
    pub seeds_dir: String,
}

impl Default for RagConfig {
    fn default() -> (res: Self)
        ensures
            !res.enabled,
            res.db_filename@ == "kernelia_rag.db"@,
            res.migrations_dir@ == "migrations"@,
            res.seeds_dir@ == "seeds"@,
    {
        RagConfig {
            enabled: false,
            db_filename: String::from_str("kernelia_rag.db"),
            migrations_dir: String::from_str("migrations"),
            seeds_dir: String::from_str("seeds"),
        }
    }
}

/// Priority of a support ticket.
#[derive(Debug, Clone, Copy, PartialEq, Eq, Structural)]
pub enum TicketPriority {
    Alta,
    Media,
    Baja,
}

} // verus!
