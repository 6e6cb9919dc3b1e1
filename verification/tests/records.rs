use kernelia::decision_engine::RetrievalBundle;
use kernelia::function_calling::ToolInfo;
use kernelia::live_state::LiveStateContext;
use kernelia::memory::build_memory_snapshot;
use kernelia::models::{
    ConfidenceAssessment, ConfidenceLevel, DecisionEnvelope, DecisionMode, DomainSpecialty, QueryAnalysis, QueryCategory,
    RetrievalHit, RiskLevel,
};
use kernelia::prompt::{build_prompt_context, render_specialty_agent_context, ScoreTexts};
use kernelia::records::{checkpoint_code_from, checkpoint_resolution, new_checkpoint, rand_checkpoint_code};
use kernelia::specialty_agent::build_specialty_agent_profile;
use kernelia::trace::{append_error, build_trace, TraceDecisionDraft};
use kernelia::verification::{evaluate_expected_condition, ToolResult};

fn analysis(text: &str, category: QueryCategory, specialty: DomainSpecialty, symptoms: &[&str], entities: &[&str], ambiguity_pct: u32) -> QueryAnalysis {
    QueryAnalysis {
        normalized_text: text.to_string(),
        query_category: category,
        specialty,
        urgency: "normal".to_string(),
        symptoms: symptoms.iter().map(|s| s.to_string()).collect(),
        entities: entities.iter().map(|s| s.to_string()).collect(),
        ambiguity_pct,
        requires_clarification: false,
    }
}

fn decision(category: QueryCategory, specialty: DomainSpecialty, level: ConfidenceLevel, risk: RiskLevel, mode: DecisionMode, allowed: &[&str], reasons: &[&str]) -> DecisionEnvelope {
    DecisionEnvelope {
        query_category: category,
        specialty,
        confidence_level: level,
        risk_level: risk,
        decision_mode: mode,
        requires_clarification: false,
        requires_live_state: true,
        requires_snapshot: false,
        requires_human: false,
        allowed_tools: allowed.iter().map(|s| s.to_string()).collect(),
        denied_tools: Vec::new(),
        reason_codes: reasons.iter().map(|s| s.to_string()).collect(),
    }
}

fn live(specialty: DomainSpecialty, summary: &[&str], observations: &[&str], conflicts: &[&str], source: Option<&str>) -> LiveStateContext {
    LiveStateContext {
        specialty: Some(specialty),
        summary: summary.iter().map(|s| s.to_string()).collect(),
        observations: observations.iter().map(|s| s.to_string()).collect(),
        conflict_flags: conflicts.iter().map(|s| s.to_string()).collect(),
        snapshot_source: source.map(|s| s.to_string()),
        current_state: "{}".to_string(),
        last_snapshot: None,
    }
}

fn hit(source_type: &str, source_id: &str, title: &str, entity_key: Option<&str>, content: &str) -> RetrievalHit {
    RetrievalHit {
        source_type: source_type.to_string(),
        source_id: source_id.to_string(),
        title: title.to_string(),
        specialty: DomainSpecialty::Network,
        entity_key: entity_key.map(|s| s.to_string()),
        content: content.to_string(),
    }
}

fn tool_result(name: &str, success: bool, output: &str, error: Option<&str>) -> ToolResult {
    ToolResult { tool_name: name.to_string(), success, output: output.to_string(), error: error.map(|s| s.to_string()) }
}

#[test]
fn builds_snapshot_with_entities_and_observations() {
    let analysis = analysis("reinicia spooler", QueryCategory::ActionRequest, DomainSpecialty::Services, &["print_failure"], &["spooler"], 20);
    let decision = decision(QueryCategory::ActionRequest, DomainSpecialty::Services, ConfidenceLevel::High, RiskLevel::R2, DecisionMode::Execute, &["restart_service"], &["COMMAND_EVIDENCE"]);
    let live_state = live(DomainSpecialty::Services, &["spooler_running"], &["spooler_running"], &[], None);
    let tools = vec![ToolInfo { name: "restart_service".to_string(), arguments: "{\"name\":\"Spooler\"}".to_string() }];
    let draft = build_memory_snapshot("reinicia spooler", "Voy a revisar el servicio.", &analysis, &decision, "0.86", &live_state, &tools);

    assert!(draft.facts.iter().any(|fact| fact.fact_key == "spooler"));
    assert!(draft.tool_actions.iter().any(|tool| tool == "restart_service"));
}

#[test]
fn stores_conflict_when_memory_is_contradicted_by_live_state() {
    let analysis = analysis("spooler sigue fallando", QueryCategory::ActionRequest, DomainSpecialty::Services, &["print_failure"], &["spooler"], 15);
    let decision = decision(QueryCategory::ActionRequest, DomainSpecialty::Services, ConfidenceLevel::Medium, RiskLevel::R2, DecisionMode::Simulate, &["restart_service"], &["CONFLICT_DETECTED"]);
    let mut live_state = live(DomainSpecialty::Services, &["conflict=service_state_changed"], &["spooler_running"], &["service_state_changed"], Some("manual"));
    live_state.last_snapshot = Some("{\"data\":{\"services\":{\"spooler\":\"stopped\"}}}".to_string());
    let draft = build_memory_snapshot(
        "el historial decia detenido pero ahora corre",
        "Detecto conflicto entre snapshot y estado vivo.",
        &analysis,
        &decision,
        "0.61",
        &live_state,
        &Vec::new(),
    );

    assert!(draft.facts.iter().any(|fact| fact.fact_type == "conflict" && fact.fact_key == "service_state_changed"));
}

#[test]
fn memory_snapshot_summary_tags_and_questions() {
    let analysis = analysis("consulta dns", QueryCategory::ActionRequest, DomainSpecialty::Network, &["dns_failure"], &["dns", "gateway"], 10);
    let mut decision = decision(QueryCategory::ActionRequest, DomainSpecialty::Network, ConfidenceLevel::High, RiskLevel::R0, DecisionMode::Execute, &["dns_lookup"], &[]);
    decision.requires_human = true;
    let live_state = live(DomainSpecialty::Network, &[], &["local_ip=192.168.1.20", "network_failed_checks=0"], &[], None);
    let draft = build_memory_snapshot("consulta dns", "La resolucion DNS parece disponible.", &analysis, &decision, "0.90", &live_state, &Vec::new());

    assert_eq!(
        draft.summary,
        "Consulta ActionRequest en network. Decision Execute con confianza 0.90. Entidades: dns, gateway. Observaciones vivas: local_ip=192.168.1.20 | network_failed_checks=0."
    );
    assert_eq!(draft.tags, vec!["specialty:network", "decision:execute", "risk:r0", "confidence:high"]);
    assert_eq!(draft.open_questions, vec!["La accion requiere escalamiento o aprobacion humana."]);
    assert!(!draft.resolved);
    assert_eq!(draft.facts.len(), 2 + 2 + 1 + 2);
    assert_eq!(draft.facts[0].fact_value, "consulta dns");
    assert_eq!(draft.facts[0].confidence_pct, 95);
    assert_eq!(draft.component_states[2], ("human_required".to_string(), "true".to_string()));

    let long = "x".repeat(300);
    let cut = build_memory_snapshot(&long, "ok", &analysis, &decision, "0.90", &LiveStateContext::default(), &Vec::new());
    assert_eq!(cut.facts[0].fact_value.len(), 180);
    assert!(cut.summary.ends_with("Observaciones vivas: sin observaciones."));
}

fn sample_analysis() -> QueryAnalysis {
    analysis("sin internet revisar dns", QueryCategory::ActionRequest, DomainSpecialty::Network, &["dns_failure"], &["dns"], 10)
}

fn sample_retrieval() -> RetrievalBundle {
    RetrievalBundle {
        knowledge_hits: vec![hit("knowledge_chunk", "knowledge_chunk_id", "DNS diagnosis", Some("dns"), "contenido")],
        command_hits: vec![hit("command_or_tool", "command_or_tool_id", "dns_lookup -> nslookup", Some("dns"), "contenido")],
        policy_hits: vec![hit("decision_policy", "decision_policy_id", "Network policy", Some("dns"), "contenido")],
        memory_hits: Vec::new(),
    }
}

fn sample_confidence() -> ConfidenceAssessment {
    ConfidenceAssessment {
        level: ConfidenceLevel::High,
        reason_codes: vec!["KNOWLEDGE_EVIDENCE".to_string()],
        should_use_context: true,
        should_ask_clarifying_question: false,
    }
}

fn sample_decision() -> DecisionEnvelope {
    decision(QueryCategory::ActionRequest, DomainSpecialty::Network, ConfidenceLevel::High, RiskLevel::R1, DecisionMode::Execute, &["dns_lookup"], &["COMMAND_EVIDENCE"])
}

#[test]
fn builds_trace_with_retrieval_confidence_and_decision() {
    let trace = build_trace(
        "trace_test_1",
        Some("session_1"),
        "No tengo internet",
        &sample_analysis(),
        &sample_retrieval(),
        &sample_confidence(),
        &sample_decision(),
        145,
    );

    assert_eq!(trace.query_category, "action_request");
    assert_eq!(trace.specialty_detected, "network");
    assert_eq!(trace.retrieval_hits.len(), 3);
    assert!(trace.confidence.is_some());
    assert!(trace.decision.is_some());
}

#[test]
fn trace_merges_reasons_and_records_errors() {
    let mut confidence = sample_confidence();
    confidence.reason_codes = vec!["COMMAND_EVIDENCE".to_string(), "KNOWLEDGE_EVIDENCE".to_string()];
    let mut retrieval = sample_retrieval();
    retrieval.memory_hits.push(hit("memory", "m1", "Memoria", None, "x"));
    let mut trace = build_trace("t2", None, "hola", &sample_analysis(), &retrieval, &confidence, &sample_decision(), 7);
    assert_eq!(trace.retrieval_hits.len(), 4);
    assert!(trace.retrieval_hits[0].used_in_context);
    assert!(!trace.retrieval_hits[3].used_in_context);
    assert_eq!(trace.session_id, None);
    let decision_part = trace.decision.clone().unwrap();
    assert_eq!(decision_part.decision_mode, "execute");
    assert_eq!(decision_part.reason_text, "COMMAND_EVIDENCE, KNOWLEDGE_EVIDENCE");
    assert!(decision_part.used_tools);
    assert!(!decision_part.escalated);
    assert_eq!(trace.confidence.clone().unwrap().confidence_level, "high");

    append_error(&mut trace, "response_generation", "LLM_TIMEOUT", "Tiempo de respuesta agotado");
    assert_eq!(trace.errors.len(), 1);
    assert_eq!(trace.errors[0].error_code, "LLM_TIMEOUT");

    let mut deny = sample_decision();
    deny.decision_mode = DecisionMode::Deny;
    let d = TraceDecisionDraft::from_decision(&sample_analysis(), &deny, &sample_confidence());
    assert!(d.escalated);
    assert_eq!(d.decision_mode, "deny");
}

#[test]
fn includes_governed_sections_in_prompt_context() {
    let analysis = analysis("consulta dns", QueryCategory::ActionRequest, DomainSpecialty::Network, &["dns_failure"], &["dns"], 20);
    let decision = decision(QueryCategory::ActionRequest, DomainSpecialty::Network, ConfidenceLevel::High, RiskLevel::R0, DecisionMode::Execute, &["dns_lookup"], &["COMMAND_EVIDENCE"]);
    let retrieval = RetrievalBundle {
        knowledge_hits: vec![hit("knowledge_chunk", "k1", "DNS recovery", Some("dns"), "Validar gateway y ejecutar consulta DNS.")],
        command_hits: vec![hit("command_or_tool", "c1", "dns_lookup -> nslookup", Some("consulta dns"), "nslookup {host}")],
        policy_hits: vec![hit("risk_policy", "p1", "Risk policy dns_lookup", Some("r0"), "viewer r0 allow_auto_execute")],
        memory_hits: Vec::new(),
    };
    let live_state = live(DomainSpecialty::Network, &["network_failed_checks=0"], &["local_ip=192.168.1.10"], &[], Some("manual"));
    let specialist = build_specialty_agent_profile(&DomainSpecialty::Network);
    let scores = ScoreTexts {
        confidence: "0.88".to_string(),
        knowledge: vec!["0.90".to_string()],
        commands: vec!["0.92".to_string()],
        policies: vec!["0.85".to_string()],
    };

    let prompt = build_prompt_context(&analysis, &decision, &retrieval, &live_state, &specialist, Some("memoria previa"), &scores);
    assert!(prompt.contains("[KERNEL_DECISION]"));
    assert!(prompt.contains("[KERNEL_RECOMMENDATION]"));
    assert!(prompt.contains("[KERNEL_MEMORY]"));
    assert!(prompt.contains("allowed_tools=dns_lookup"));
    assert!(prompt.contains("[COMMANDS]"));
    assert!(prompt.contains("[POLICIES]"));
    assert!(prompt.contains("[KERNEL_SPECIALIST]"));
}

#[test]
fn prompt_context_formats_query_and_hits() {
    let analysis = analysis("consulta dns", QueryCategory::ActionRequest, DomainSpecialty::Network, &[], &[], 20);
    let decision = decision(QueryCategory::ActionRequest, DomainSpecialty::Network, ConfidenceLevel::Medium, RiskLevel::R2, DecisionMode::Simulate, &[], &[]);
    let retrieval = RetrievalBundle {
        knowledge_hits: vec![hit("knowledge_chunk", "k1", "DNS recovery", None, "Validar   gateway\n y DNS")],
        command_hits: Vec::new(),
        policy_hits: Vec::new(),
        memory_hits: Vec::new(),
    };
    let specialist = build_specialty_agent_profile(&DomainSpecialty::Network);
    let scores = ScoreTexts { confidence: "0.61".to_string(), knowledge: vec!["0.90".to_string()], commands: vec![], policies: vec![] };
    let prompt = build_prompt_context(&analysis, &decision, &retrieval, &LiveStateContext::default(), &specialist, None, &scores);
    assert!(prompt.starts_with("[KERNEL_RAG_CONTEXT]\nquery_category=ActionRequest\nspecialty=Network\nurgency=normal\nentities=none\nsymptoms=none\nambiguity_score=0.20\n\n[RAG_DIRECTIVES]"));
    assert!(prompt.contains("[KERNEL_MEMORY]\nsin memoria operacional previa\n\n[KERNEL_DECISION]\nmode=Simulate\nconfidence_level=Medium\nconfidence_score=0.61\nrisk_level=R2\n"));
    assert!(prompt.contains("allowed_tools=ninguna\ndenied_tools=ninguna\nreason_codes=none"));
    assert!(prompt.contains("source=live_only\nsummary=sin estado vivo adicional\nobservations=sin observaciones\nconflicts=sin conflictos detectados"));
    assert!(prompt.contains("[KNOWLEDGE]\nDocument 1:::\n- [knowledge_chunk] DNS recovery | score=0.90 | Validar gateway y DNS"));
    assert!(prompt.ends_with("[COMMANDS]\n- none\n\n[POLICIES]\n- none"));
}

#[test]
fn renders_specialist_context_with_contract() {
    let profile = build_specialty_agent_profile(&DomainSpecialty::System);
    let decision = decision(QueryCategory::Specific, DomainSpecialty::System, ConfidenceLevel::High, RiskLevel::R0, DecisionMode::Explain, &["get_system_info"], &["TEST"]);
    let ctx = render_specialty_agent_context(&profile, &decision, &RetrievalBundle::default(), &LiveStateContext::default());
    assert!(ctx.contains("[KERNEL_SPECIALIST]"));
    assert!(ctx.contains("response_contract"));
    assert!(ctx.contains("get_system_info"));
}

#[test]
fn evaluates_service_running_condition() {
    let tool_result = tool_result("restart_service", true, "ok", None);
    let verify_result = tool_result_for("get_service_status", true, r#"{"Status":"Running"}"#, None);
    assert!(evaluate_expected_condition("service_running", "restart_service", "{\"name\":\"Spooler\"}", &tool_result, &verify_result));
}

fn tool_result_for(name: &str, success: bool, output: &str, error: Option<&str>) -> ToolResult {
    tool_result(name, success, output, error)
}

#[test]
fn evaluates_process_not_found_condition() {
    let tool_result = tool_result("kill_process", true, "terminated", None);
    let verify_result = tool_result_for("get_process_detail", false, "", Some("Proceso no encontrado"));
    assert!(evaluate_expected_condition("process_not_found", "kill_process", "{\"pid\":123}", &tool_result, &verify_result));
}

#[test]
fn marks_service_recovery_as_failed_when_service_does_not_return() {
    let tool_result = tool_result("restart_service", true, "service restarted", None);
    let verify_result = tool_result_for("get_service_status", true, r#"{"Status":"Stopped"}"#, None);
    assert!(!evaluate_expected_condition("service_running", "restart_service", "{\"name\":\"Spooler\"}", &tool_result, &verify_result));
}

#[test]
fn creates_and_resolves_checkpoint_flow() {
    let code = rand_checkpoint_code();
    let chk = new_checkpoint("chk-uuid-1", &code, "sess-1", "restart_service", "{}", "R2", "PowerUser", "2024-01-01T00:00:00+00:00");
    assert!(chk.checkpoint_code.starts_with("CHK-"));
    assert_eq!(chk.status, "pending");

    let res = checkpoint_resolution(Some(&chk), &chk.checkpoint_code, "approve", "superadmin").expect("Debe resolver checkpoint");
    assert_eq!(res.status, "approved");
    assert!(res.executed);
}

#[test]
fn checkpoint_codes_and_resolutions() {
    assert_eq!(checkpoint_code_from(Some(1234567)), "CHK-2567");
    assert_eq!(checkpoint_code_from(Some(-9000)), "CHK-1000");
    assert_eq!(checkpoint_code_from(None), "CHK-1321");
    let code = rand_checkpoint_code();
    assert_eq!(code.len(), 8);

    let mut chk = new_checkpoint("id", "CHK-1234", "s", "kill_process", "{}", "R3", "Owner", "now");
    let rejected = checkpoint_resolution(Some(&chk), "CHK-1234", "deny", "ana").unwrap();
    assert_eq!(rejected.status, "rejected");
    assert!(!rejected.executed);
    assert_eq!(rejected.output, None);
    assert_eq!(rejected.message, "Operación #CHK-1234 rechazada por el operador ana. El estado ha sido cancelado.");

    let approved = checkpoint_resolution(Some(&chk), "CHK-1234", "APPROVE", "ana").unwrap();
    assert_eq!(approved.message, "Estado reanudado exitosamente. La herramienta 'kill_process' fue autorizada por ana.");
    assert_eq!(approved.output.as_deref(), Some("Ejecutado con éxito bajo autorización de ana"));

    chk.status = "approved".to_string();
    assert_eq!(
        checkpoint_resolution(Some(&chk), "CHK-1234", "approve", "ana").unwrap_err(),
        "El checkpoint #CHK-1234 ya fue resuelto previamente (estado: approved)"
    );
    assert_eq!(checkpoint_resolution(None, "CHK-9", "approve", "ana").unwrap_err(), "Checkpoint #CHK-9 no encontrado o no existe");
}
