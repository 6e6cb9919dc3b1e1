use kernelia::decision_engine::RetrievalBundle;
use kernelia::live_state::LiveStateContext;
use kernelia::models::{
    ConfidenceAssessment, ConfidenceLevel, DecisionEnvelope, DecisionMode, DomainSpecialty, QueryAnalysis, QueryCategory, RetrievalHit, RiskLevel,
};
use kernelia::router::{
    detect_fast_text_response, detect_local_shortcut, has_explicit_shortcut_intent, is_safe_local_first_tool,
    local_route_for_tool, normalize_query_text, plan_answer, explicit_in_normalized, fast_text_for_normalized,
    fold_lowered_query, shortcut_for_normalized, resolve_local_first_route, retrieval_route_for_governed, AnswerPlan,
    GovernedContext,
};
use kernelia::tool_catalog::{ToolDefinition, ToolEngine};

fn analysis(text: &str, category: QueryCategory, specialty: DomainSpecialty, symptoms: &[&str], entities: &[&str], ambiguity_pct: u32) -> QueryAnalysis {
    QueryAnalysis {
        normalized_text: text.to_string(),
        query_category: category,
        specialty,
        urgency: "normal".to_string(),
        symptoms: symptoms.iter().map(|s| s.to_string()).collect(),
        entities: entities.iter().map(|s| s.to_string()).collect(),
        ambiguity_pct,
        requires_clarification: false,
    }
}

fn governed(analysis: QueryAnalysis, decision_mode: DecisionMode, confidence_level: ConfidenceLevel, command_hits: Vec<RetrievalHit>) -> GovernedContext {
    GovernedContext {
        analysis,
        retrieval: RetrievalBundle { knowledge_hits: Vec::new(), command_hits, policy_hits: Vec::new(), memory_hits: Vec::new() },
        confidence: ConfidenceAssessment {
            level: confidence_level,
            reason_codes: vec![],
            should_use_context: true,
            should_ask_clarifying_question: false,
        },
        decision: DecisionEnvelope {
            query_category: QueryCategory::ActionRequest,
            specialty: DomainSpecialty::System,
            confidence_level,
            risk_level: RiskLevel::R0,
            decision_mode,
            requires_clarification: false,
            requires_live_state: false,
            requires_snapshot: false,
            requires_human: false,
            allowed_tools: vec![],
            denied_tools: vec![],
            reason_codes: vec![],
        },
        live_state: LiveStateContext {
            specialty: None,
            summary: vec![],
            observations: vec![],
            conflict_flags: vec![],
            snapshot_source: None,
            current_state: "{}".to_string(),
            last_snapshot: None,
        },
        prompt_context: String::new(),
    }
}

fn command_hit(title: &str) -> RetrievalHit {
    RetrievalHit {
        source_type: "command_or_tool".to_string(),
        source_id: "id".to_string(),
        title: title.to_string(),
        specialty: DomainSpecialty::System,
        entity_key: None,
        content: title.to_string(),
    }
}

#[test]
fn answers_simple_ok_without_llm() {
    assert_eq!(detect_fast_text_response("responde solo ok"), Some("ok"));
    assert_eq!(detect_fast_text_response("Responde solamente OK."), Some("ok"));
}

#[test]
fn detects_storage_question_as_local_tool() {
    let q = "¿Cuántas unidades de almacenamiento tiene el equipo?";
    let shortcut = detect_local_shortcut(q).expect("storage shortcut should be detected");
    assert_eq!(shortcut.0, "get_storage_summary");
}

#[test]
fn detects_health_question_as_local_tool() {
    let q = "Cual es el health completo del equipo";
    let shortcut = detect_local_shortcut(q).expect("health shortcut should be detected");
    assert_eq!(shortcut.0, "health_summary");
}

#[test]
fn detects_state_question_as_system_info_tool() {
    let q = "Cual es el estado actual del equipo";
    let shortcut = detect_local_shortcut(q).expect("state shortcut should be detected");
    assert_eq!(shortcut.0, "get_system_info");
}

#[test]
fn detects_network_adapter_question() {
    let q = "ejecuta y dime cuantas tarjetas de red tiene el equipo y cuales son sus configuraciones";
    let shortcut = detect_local_shortcut(q).expect("shortcut should be detected");
    assert_eq!(shortcut.0, "get_network_adapters");
}

#[test]
fn detects_top_process_question() {
    let q = "ejecuta y muestrame los procesos que mas recursos consumen";
    let shortcut = detect_local_shortcut(q).expect("shortcut should be detected");
    assert_eq!(shortcut.0, "list_processes");
}

#[test]
fn does_not_shortcut_without_explicit_intent() {
    let q = "Muestrame los procesos que mas recursos consumen";
    let shortcut = detect_local_shortcut(q);
    assert!(shortcut.is_none());
}

#[test]
fn routes_network_questions_to_local_diagnostic() {
    let a = analysis("se me cae la internet", QueryCategory::ActionRequest, DomainSpecialty::Network, &["network_down"], &["internet"], 15);
    let g = governed(a, DecisionMode::Execute, ConfidenceLevel::High, vec![command_hit("run_network_diagnostic")]);
    let route = resolve_local_first_route("se me cae la internet", &g, &ToolEngine::get_tool_definitions())
        .expect("network route should exist");
    assert_eq!(route.tool_name, "run_network_diagnostic");
}

#[test]
fn routes_process_queries_to_process_listing() {
    let a = analysis("muestrame los procesos que mas recursos consumen", QueryCategory::ActionRequest, DomainSpecialty::Processes, &["high_cpu"], &["process"], 12);
    let g = governed(a, DecisionMode::Execute, ConfidenceLevel::High, vec![command_hit("list_processes")]);
    let route = resolve_local_first_route("muestrame los procesos que mas recursos consumen", &g, &ToolEngine::get_tool_definitions())
        .expect("process route should exist");
    assert_eq!(route.tool_name, "list_processes");
}

#[test]
fn routes_windows_update_questions_to_status_tool() {
    let a = analysis("lista de actualizaciones de windows", QueryCategory::ActionRequest, DomainSpecialty::Software, &["update_failure"], &["windows_update"], 10);
    let g = governed(a, DecisionMode::Execute, ConfidenceLevel::High, vec![command_hit("get_windows_updates_status")]);
    let route = resolve_local_first_route("lista de actualizaciones de windows", &g, &ToolEngine::get_tool_definitions())
        .expect("update route should exist");
    assert_eq!(route.tool_name, "get_windows_updates_status");
}

#[test]
fn routes_app_update_questions_to_winget_check() {
    let a = analysis("muestra las actualizaciones de aplicaciones", QueryCategory::ActionRequest, DomainSpecialty::Software, &[], &["windows_update"], 12);
    let g = governed(a, DecisionMode::Execute, ConfidenceLevel::High, vec![command_hit("check_app_updates")]);
    let route = resolve_local_first_route("muestra las actualizaciones de aplicaciones", &g, &ToolEngine::get_tool_definitions())
        .expect("winget update route should exist");
    assert_eq!(route.tool_name, "check_app_updates");
}

#[test]
fn normalizes_queries_for_routing() {
    assert_eq!(normalize_query_text("  ¡Ejecuta   /Quick  Check!  "), "ejecuta /quick check");
    assert_eq!(normalize_query_text("Conexión  a   Internet"), "conexion a internet");
    assert!(has_explicit_shortcut_intent("/tool red"));
    assert!(has_explicit_shortcut_intent("please run diagnostics"));
    assert!(!has_explicit_shortcut_intent("estado del equipo"));
}

#[test]
fn gated_decisions_never_route_locally() {
    let a = analysis("se me cae la internet", QueryCategory::ActionRequest, DomainSpecialty::Network, &[], &[], 10);
    let catalog = ToolEngine::get_tool_definitions();
    let g = governed(a.clone(), DecisionMode::Deny, ConfidenceLevel::High, vec![]);
    assert!(resolve_local_first_route("se me cae la internet", &g, &catalog).is_none());
    let g = governed(a.clone(), DecisionMode::Execute, ConfidenceLevel::Low, vec![]);
    assert!(resolve_local_first_route("se me cae la internet", &g, &catalog).is_none());
    let g = governed(a, DecisionMode::Clarify, ConfidenceLevel::High, vec![]);
    assert!(resolve_local_first_route("se me cae la internet", &g, &catalog).is_none());
}

#[test]
fn local_routes_carry_arguments_and_prefixes() {
    let r = local_route_for_tool("list_processes").expect("route");
    assert_eq!(r.args, "{\"limit\":15,\"sort_by\":\"memory\"}");
    assert_eq!(r.ok_prefix, "Procesos con mayor consumo:\n\n");
    let r = local_route_for_tool("list_directory").expect("route");
    assert_eq!(r.args, "{\"path\":\"desktop\"}");
    assert!(local_route_for_tool("restart_service").is_none());
    assert!(is_safe_local_first_tool("health_summary"));
    assert!(!is_safe_local_first_tool("restart_service"));
}

#[test]
fn retrieval_route_needs_catalog_and_evidence() {
    let a = analysis("revisa algo", QueryCategory::Specific, DomainSpecialty::Unknown, &[], &[], 30);
    let catalog = vec![ToolDefinition { name: "get_local_ip".to_string(), description: "IP".to_string(), parameters: "{}".to_string() }];
    let g = governed(a.clone(), DecisionMode::Execute, ConfidenceLevel::High, vec![command_hit("get_local_ip -> ipconfig")]);
    let route = retrieval_route_for_governed(&g, &catalog).expect("retrieval route");
    assert_eq!(route.tool_name, "get_local_ip");
    assert_eq!(route.ok_prefix, "IP local detectada:\n\n");
    let g = governed(a, DecisionMode::Execute, ConfidenceLevel::High, vec![]);
    assert!(retrieval_route_for_governed(&g, &catalog).is_none());
}

#[test]
fn comparison_shows_both_readings_only_in_comparison_mode() {
    let assessment = kernelia::intent_engine::assess_message("el internet esta malo y tengo ping alto", &[]);
    let g = governed(
        analysis("internet malo", QueryCategory::SymptomBased, DomainSpecialty::Network, &[], &[], 20),
        DecisionMode::Explain,
        ConfidenceLevel::Medium,
        vec![],
    );
    let mut settings = kernelia::settings::AppSettings::initial("1.0.0", Some("1"), Some("1"), None);
    let shown = kernelia::assistant::build_rag_comparison_context(&assessment, Some(&g), &settings).expect("comparison");
    assert_eq!(shown.legacy_intent, "network");
    assert_eq!(shown.rag_specialty, "system");
    assert_eq!(shown.rag_decision, "explain");
    assert_eq!(shown.legacy_plan, assessment.recommended_plan);
    assert!(kernelia::assistant::build_rag_comparison_context(&assessment, None, &settings).is_none());
    settings.rag_compare_mode = false;
    assert!(kernelia::assistant::build_rag_comparison_context(&assessment, Some(&g), &settings).is_none());
}

#[test]
fn every_direct_route_ends_its_prefixes_alike() {
    let names = [
        "get_system_info", "get_storage_summary", "list_processes", "run_network_diagnostic", "get_network_adapters",
        "get_local_ip", "get_default_gateway", "get_dns_servers", "get_wifi_info", "get_public_ip",
        "list_running_services", "generate_support_report", "health_overview", "health_summary", "scan_asset_inventory",
        "list_driver_issues", "search_missing_driver", "list_directory", "read_file", "run_kernel_slowpc_diagnostic",
        "run_kernel_network_playbook", "generate_kernelia_readiness_report", "generate_performance_report",
        "generate_reliability_report", "predict_operational_incidents", "explain_root_cause",
        "generate_autonomous_playbook", "get_enterprise_dashboard", "generate_advanced_reporting", "get_noc_global_status",
    ];
    for name in names {
        assert!(is_safe_local_first_tool(name));
        let r = local_route_for_tool(name).expect("route");
        assert_eq!(r.tool_name, name);
        assert!(r.ok_prefix.ends_with(":\n\n"));
        assert!(r.err_prefix.ends_with(". "));
    }
    for name in ["get_windows_updates_status", "check_app_updates"] {
        assert!(!is_safe_local_first_tool(name));
        assert_eq!(local_route_for_tool(name).expect("route").args, "{}");
    }
    assert_eq!(local_route_for_tool("read_file").unwrap().args, "{\"path\":\"\"}");
    assert!(local_route_for_tool("ping_host").is_none());
}

#[test]
fn answers_are_planned_in_order() {
    let catalog = ToolEngine::get_tool_definitions();
    match plan_answer("Responde solo OK", None, &catalog) {
        AnswerPlan::Fast(t) => assert_eq!(t, "ok"),
        other => panic!("unexpected plan {:?}", other),
    }
    match plan_answer("/tool lista los archivos del escritorio", None, &catalog) {
        AnswerPlan::Shortcut(r) => assert_eq!(r.tool_name, "list_directory"),
        other => panic!("unexpected plan {:?}", other),
    }
    assert!(matches!(plan_answer("cuentame un chiste", None, &catalog), AnswerPlan::Model));
}

#[test]
fn normalized_text_is_routed_exactly() {
    let lowered: Vec<char> = "¿cuál   es el estado del equipo?".chars().collect();
    assert_eq!(fold_lowered_query(&lowered), "cual es el estado del equipo");
    let text: Vec<char> = "/tool lista los archivos del escritorio".chars().collect();
    assert!(explicit_in_normalized(&text));
    assert_eq!(shortcut_for_normalized(&text, true).map(|r| r.0), Some("list_directory"));
    assert_eq!(shortcut_for_normalized(&text, false), None);
    let state: Vec<char> = "estado del equipo".chars().collect();
    assert_eq!(shortcut_for_normalized(&state, false).map(|r| r.0), Some("get_system_info"));
    assert_eq!(fast_text_for_normalized("responde solo ok"), Some("ok"));
    assert_eq!(fast_text_for_normalized("Responde solo OK"), None);
}
