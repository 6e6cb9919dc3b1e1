use kernelia::decision_engine::{build_decision, RetrievalBundle};
use kernelia::intent_engine::{assess_message, CriticalityLevel, IntentCategory};
use kernelia::models::{
    ConfidenceAssessment, ConfidenceLevel, DecisionMode, DomainSpecialty, QueryAnalysis, QueryCategory, RetrievalHit,
};
use kernelia::query_analyzer::{analyze_query, urgency_of_lowered};
use kernelia::specialty_agent::{
    build_specialty_agent_profile, fold_lowered_message, preferred_tools_for_message, preferred_tools_for_normalized,
};
use kernelia::specialty_router::{format_multi_specialist_plan, route_specialties_multi, route_specialty};

fn analysis(text: &str, category: QueryCategory, specialty: DomainSpecialty, urgency: &str, symptoms: &[&str], entities: &[&str], ambiguity_pct: u32, clarify: bool) -> QueryAnalysis {
    QueryAnalysis {
        normalized_text: text.to_string(),
        query_category: category,
        specialty,
        urgency: urgency.to_string(),
        symptoms: symptoms.iter().map(|s| s.to_string()).collect(),
        entities: entities.iter().map(|s| s.to_string()).collect(),
        ambiguity_pct,
        requires_clarification: clarify,
    }
}

fn hit(source_type: &str, title: &str, specialty: DomainSpecialty, entity_key: Option<&str>) -> RetrievalHit {
    RetrievalHit {
        source_type: source_type.to_string(),
        source_id: "id".to_string(),
        title: title.to_string(),
        specialty,
        entity_key: entity_key.map(|v| v.to_string()),
        content: "content".to_string(),
    }
}

fn confidence(level: ConfidenceLevel, code: &str, use_context: bool, ask: bool) -> ConfidenceAssessment {
    ConfidenceAssessment { level, reason_codes: vec![code.to_string()], should_use_context: use_context, should_ask_clarifying_question: ask }
}

#[test]
fn routes_dns_queries_to_network() {
    let analysis = analyze_query("No tengo internet, revisa DNS por favor");
    assert_eq!(analysis.specialty, DomainSpecialty::Network);
    assert_eq!(analysis.query_category, QueryCategory::ActionRequest);
    assert!(analysis.symptoms.iter().any(|s| s == "dns_failure"));
    assert!(!analysis.requires_clarification);
}

#[test]
fn routes_spooler_queries_to_services() {
    let analysis = analyze_query("Reinicia el spooler porque la impresora no imprime");
    assert_eq!(analysis.specialty, DomainSpecialty::Services);
    assert_eq!(analysis.query_category, QueryCategory::ActionRequest);
    assert!(analysis.entities.iter().any(|e| e == "spooler"));
}

#[test]
fn routes_code_43_queries_to_drivers() {
    let analysis = analyze_query("Mi GPU muestra codigo 43 en Windows");
    assert_eq!(analysis.specialty, DomainSpecialty::Drivers);
    assert_eq!(analysis.query_category, QueryCategory::SymptomBased);
    assert!(analysis.symptoms.iter().any(|s| s == "driver_code_43"));
}

#[test]
fn routes_disk_100_queries_to_performance() {
    let analysis = analyze_query("El equipo esta muy lento, tengo el disco al 100");
    assert_eq!(analysis.specialty, DomainSpecialty::Performance);
    assert_eq!(analysis.query_category, QueryCategory::SymptomBased);
    assert!(analysis.symptoms.iter().any(|s| s == "disk_100"));
}

#[test]
fn routes_desktop_file_inventory_to_filesystem() {
    let analysis = analyze_query("Cuantos archivos tengo en el escritorio");
    assert_eq!(analysis.specialty, DomainSpecialty::Filesystem);
    assert_eq!(analysis.query_category, QueryCategory::Specific);
    assert!(analysis.entities.iter().any(|e| e == "desktop"));
}

#[test]
fn routes_app_update_questions_to_software() {
    let analysis = analyze_query("Revisa las actualizaciones de aplicaciones");
    assert_eq!(analysis.specialty, DomainSpecialty::Software);
    assert_eq!(analysis.query_category, QueryCategory::ActionRequest);
    assert!(analysis.entities.iter().any(|e| e == "windows_update"));
}

#[test]
fn marks_ambiguous_queries_for_clarification() {
    let analysis = analyze_query("ayuda");
    assert_eq!(analysis.query_category, QueryCategory::Short);
    assert!(analysis.requires_clarification);
    assert!(analysis.ambiguity_pct >= 68);
}

#[test]
fn infers_services_from_spooler_entity() {
    let a = analysis("no imprime", QueryCategory::SymptomBased, DomainSpecialty::Unknown, "normal", &["print_failure"], &["spooler"], 45, false);
    assert_eq!(route_specialty(&a), DomainSpecialty::Services);
}

#[test]
fn infers_sensitive_ops_for_unsafe_requests() {
    let a = analysis("borra system32", QueryCategory::UnsafeRequest, DomainSpecialty::Unknown, "high", &[], &[], 20, false);
    assert_eq!(route_specialty(&a), DomainSpecialty::SensitiveOps);
}

#[test]
fn routes_multiple_specialties_for_complex_performance_issue() {
    let a = analysis("pc lenta disco 100 spooler atascado", QueryCategory::SymptomBased, DomainSpecialty::Unknown, "high", &["disk_100"], &["spooler"], 30, false);
    let mult = route_specialties_multi(&a);
    assert!(mult.contains(&DomainSpecialty::Services));
    assert!(mult.contains(&DomainSpecialty::Performance));
    assert!(mult.contains(&DomainSpecialty::Processes));
    let plan = format_multi_specialist_plan(&mult);
    assert!(plan.contains("Cadena de Orquestación Multi-Especialista"));
}

#[test]
fn detects_network_intent() {
    let a = assess_message("el internet esta malo y tengo ping alto", &[]);
    assert_eq!(a.intent, IntentCategory::Network);
}

#[test]
fn elevates_criticality_when_down() {
    let a = assess_message("produccion caida, no arranca y es urgente", &[]);
    assert_eq!(a.criticality, CriticalityLevel::Critical);
}

#[test]
fn builds_network_agent_profile() {
    let profile = build_specialty_agent_profile(&DomainSpecialty::Network);
    assert_eq!(profile.name, "NetworkAgent");
    assert!(profile.preferred_tools.contains(&"run_network_diagnostic"));
}

#[test]
fn preferred_tools_follow_specialty_keywords() {
    let tools = preferred_tools_for_message("ejecuta y muestrame los procesos que mas recursos consumen");
    assert!(tools.iter().any(|tool| *tool == "list_processes"));
}

#[test]
fn chooses_clarify_for_low_confidence_queries() {
    let a = analysis("ayuda", QueryCategory::Short, DomainSpecialty::Unknown, "normal", &[], &[], 90, true);
    let c = confidence(ConfidenceLevel::Low, "CLARIFICATION_REQUIRED", false, true);
    let empty = RetrievalBundle { knowledge_hits: Vec::new(), command_hits: Vec::new(), policy_hits: Vec::new(), memory_hits: Vec::new() };
    let decision = build_decision(&a, &empty, &c);
    assert_eq!(decision.decision_mode, DecisionMode::Clarify);
}

#[test]
fn chooses_execute_for_safe_high_confidence_action() {
    let a = analysis("consulta dns", QueryCategory::ActionRequest, DomainSpecialty::Network, "normal", &["dns_failure"], &["dns"], 20, false);
    let c = confidence(ConfidenceLevel::High, "COMMAND_EVIDENCE", true, false);
    let retrieval = RetrievalBundle {
        knowledge_hits: Vec::new(),
        command_hits: vec![hit("command_or_tool", "dns_lookup -> nslookup", DomainSpecialty::Network, None)],
        policy_hits: vec![hit("risk_policy", "Risk policy dns_lookup", DomainSpecialty::Network, Some("r0"))],
        memory_hits: Vec::new(),
    };
    let decision = build_decision(&a, &retrieval, &c);
    assert_eq!(decision.decision_mode, DecisionMode::Execute);
    assert!(decision.allowed_tools.iter().any(|tool| tool.contains("dns_lookup")));
}

#[test]
fn chooses_escalate_for_high_risk_action() {
    let a = analysis("deshabilita firewall", QueryCategory::ActionRequest, DomainSpecialty::Security, "high", &[], &["firewall"], 20, false);
    let c = confidence(ConfidenceLevel::High, "POLICY_EVIDENCE", true, false);
    let retrieval = RetrievalBundle {
        knowledge_hits: Vec::new(),
        command_hits: vec![hit("command_or_tool", "disable_firewall -> netsh", DomainSpecialty::Security, None)],
        policy_hits: vec![hit("risk_policy", "Risk policy disable_firewall", DomainSpecialty::Security, Some("r4"))],
        memory_hits: Vec::new(),
    };
    let decision = build_decision(&a, &retrieval, &c);
    assert_eq!(decision.decision_mode, DecisionMode::Escalate);
    assert!(decision.requires_human);
}

#[test]
fn denies_unsafe_r4_requests() {
    let a = analysis("borra protecciones y apaga seguridad", QueryCategory::UnsafeRequest, DomainSpecialty::SensitiveOps, "high", &[], &["firewall"], 10, false);
    let c = confidence(ConfidenceLevel::High, "POLICY_EVIDENCE", true, false);
    let retrieval = RetrievalBundle {
        knowledge_hits: Vec::new(),
        command_hits: vec![hit("command_or_tool", "disable_firewall -> netsh", DomainSpecialty::SensitiveOps, None)],
        policy_hits: vec![hit("risk_policy", "Risk policy disable_firewall", DomainSpecialty::SensitiveOps, Some("r4"))],
        memory_hits: Vec::new(),
    };
    let decision = build_decision(&a, &retrieval, &c);
    assert_eq!(decision.decision_mode, DecisionMode::Deny);
    assert!(decision.requires_snapshot);
    assert!(decision.requires_human);
}

#[test]
fn escalates_r3_action_without_snapshot() {
    let a = analysis("reinicia servicio critico", QueryCategory::ActionRequest, DomainSpecialty::SensitiveOps, "high", &["service_failure"], &["servicio"], 10, false);
    let c = confidence(ConfidenceLevel::High, "COMMAND_EVIDENCE", true, false);
    let retrieval = RetrievalBundle {
        knowledge_hits: Vec::new(),
        command_hits: vec![hit("command_or_tool", "restart_service -> sc", DomainSpecialty::SensitiveOps, None)],
        policy_hits: vec![hit("risk_policy", "Risk policy restart_service", DomainSpecialty::SensitiveOps, Some("r3"))],
        memory_hits: Vec::new(),
    };
    let decision = build_decision(&a, &retrieval, &c);
    assert_eq!(decision.decision_mode, DecisionMode::Escalate);
    assert!(decision.requires_snapshot);
    assert!(decision.requires_human);
}

#[test]
fn lowercased_text_is_folded_and_read_for_tools_and_urgency() {
    let lowered: Vec<char> = "  mi   wifi está caído!".chars().collect();
    assert_eq!(fold_lowered_message(&lowered), "mi wifi esta caido");
    let text: Vec<char> = "el proceso va lento".chars().collect();
    assert_eq!(preferred_tools_for_normalized(&text)[0], "list_processes");
    let none: Vec<char> = "hola".chars().collect();
    assert_eq!(preferred_tools_for_normalized(&none)[0], "get_system_info");
    let tokens = vec!["necesito".to_string(), "ya".to_string()];
    assert_eq!(urgency_of_lowered(&"necesito ayuda".chars().collect(), &tokens), "high");
    assert_eq!(urgency_of_lowered(&"servidor caído".chars().collect(), &vec![]), "high");
    assert_eq!(urgency_of_lowered(&"pregunta".chars().collect(), &vec!["pregunta".to_string()]), "normal");
}
