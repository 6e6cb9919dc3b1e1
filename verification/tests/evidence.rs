use kernelia::commands::{first_given, quick_check_result, resolve_quick_check, tool_gate, visible_quick_checks, PipelineStep};
use kernelia::hits::{
    command_exact_bonus_pct, command_hit, confidence_policy_hit, decision_policy_hit, knowledge_base_text, knowledge_hit,
    policy_matches, risk_hit, risk_matches,
};
use kernelia::ingest::validated_solution;
use kernelia::intent_engine::{assess_message, to_operational_context};
use kernelia::models::{DomainSpecialty, QueryAnalysis, QueryCategory};
use kernelia::retrieval::{semantic_query_text, stable_index};
use kernelia::scoring::{
    anchor_bonus_pct, count_shared, entity_bonus_pct, exact_match_bonus_pct, exact_phrase_bonus_pct, is_stopword,
    lexical_hits, significant_tokens, specialty_bonus_pct,
};
use kernelia::settings::{
    default_gemma3_base_url, env_flag, env_key_sources, AppSettings, ModelConfig, QuickCheck, QuickCheckType, UserRole,
};
use kernelia::tickets::{new_support_ticket, rand_ticket_code, ticket_code_from};
use kernelia::verification::ToolResult;

fn analysis(text: &str, specialty: DomainSpecialty, symptoms: &[&str], entities: &[&str]) -> QueryAnalysis {
    QueryAnalysis {
        normalized_text: text.to_string(),
        query_category: QueryCategory::SymptomBased,
        specialty,
        urgency: "normal".to_string(),
        symptoms: symptoms.iter().map(|s| s.to_string()).collect(),
        entities: entities.iter().map(|s| s.to_string()).collect(),
        ambiguity_pct: 10,
        requires_clarification: false,
    }
}

fn strings(items: &[&str]) -> Vec<String> {
    items.iter().map(|s| s.to_string()).collect()
}

#[test]
fn significant_words_and_overlap() {
    assert!(is_stopword("para"));
    assert!(!is_stopword("dns"));
    assert_eq!(significant_tokens("que es el dns y la red a"), strings(&["dns", "red"]));
    let q = strings(&["dns", "falla", "dns"]);
    let d = strings(&["dns", "resolucion"]);
    assert_eq!(count_shared(&q, &d), 2);
    assert_eq!(count_shared(&Vec::new(), &d), 0);
}

#[test]
fn fixed_bonuses_in_hundredths() {
    assert_eq!(exact_phrase_bonus_pct("consulta dns", "guia consulta dns rapida"), 28);
    assert_eq!(exact_phrase_bonus_pct("consulta dns", "consulta dns"), 28);
    assert_eq!(exact_phrase_bonus_pct("consulta dns", "otra cosa"), 0);
    assert_eq!(exact_phrase_bonus_pct("", "x"), 0);

    let q = strings(&["dns", "resolucion"]);
    assert_eq!(anchor_bonus_pct(&q, "Resolución DNS", "General"), 10);
    assert_eq!(anchor_bonus_pct(&q, "DNS", "General"), 5);
    assert_eq!(anchor_bonus_pct(&q, "Impresoras", "Cola"), 0);

    assert_eq!(entity_bonus_pct("dns", "DNS"), 18);
    assert_eq!(entity_bonus_pct("", ""), 0);
    assert_eq!(entity_bonus_pct("dns", "gateway"), 0);

    let a = analysis("falla dns", DomainSpecialty::Network, &["dns_failure"], &["gateway"]);
    assert_eq!(exact_match_bonus_pct("Falla DNS", &a), 35);
    assert_eq!(exact_match_bonus_pct("revisar el gateway", &a), 20);
    assert_eq!(exact_match_bonus_pct("hay dns failure aqui", &a), 15);
    assert_eq!(exact_match_bonus_pct("nada", &a), 0);

    assert_eq!(specialty_bonus_pct(&DomainSpecialty::Network, &a), 25);
    assert_eq!(specialty_bonus_pct(&DomainSpecialty::Drivers, &a), 0);
    let unknown = analysis("x", DomainSpecialty::Unknown, &[], &[]);
    assert_eq!(specialty_bonus_pct(&DomainSpecialty::Unknown, &unknown), 0);
}

#[test]
fn lexical_evidence_counts() {
    let a = analysis("falla dns a", DomainSpecialty::Network, &["dns_failure"], &["gateway", "wifi"]);
    assert_eq!(lexical_hits("Falla de DNS Failure en el Gateway", &a), (2, 1, 1));
    assert_eq!(lexical_hits("nada", &a), (0, 0, 0));
}

#[test]
fn rows_become_hits() {
    let k = knowledge_hit("k1", "DNS", "texto", "network", "");
    assert_eq!(k.source_type, "knowledge_chunk");
    assert_eq!(k.specialty, DomainSpecialty::Network);
    assert_eq!(k.entity_key, None);
    assert_eq!(knowledge_base_text("T", "A", "C"), "T A C");

    let c = command_hit("c1", "nslookup", "consulta dns", "network", "nslookup {host}", "consulta dns", "dns_lookup");
    assert_eq!(c.title, "dns_lookup -> nslookup");
    assert_eq!(c.content, "nslookup consulta dns nslookup {host} consulta dns");
    assert_eq!(c.entity_key.as_deref(), Some("consulta dns"));
    let plain = command_hit("c2", "ipconfig", "d", "network", "ipconfig", "", "");
    assert_eq!(plain.title, "ipconfig");
    assert_eq!(command_exact_bonus_pct("consulta dns", "nslookup", "consulta dns"), 30);
    assert_eq!(command_exact_bonus_pct("", "nslookup", "consulta dns"), 0);

    let r = risk_hit("r1", "restart_service", "r2", "PowerUser", "sp_services", "Reinicia");
    assert_eq!(r.title, "Risk policy restart_service");
    assert_eq!(r.content, "tool_name=restart_service risk_level=r2 min_role=PowerUser Reinicia");
    assert_eq!(r.specialty, DomainSpecialty::Services);
    assert_eq!(r.entity_key.as_deref(), Some("r2"));
    let a = analysis("quiero restart service del spooler", DomainSpecialty::Services, &[], &[]);
    assert_eq!(risk_matches(&DomainSpecialty::Services, &a, "restart_service"), (true, true));
    assert_eq!(risk_matches(&DomainSpecialty::Network, &a, "kill_process"), (false, false));

    let d = decision_policy_hit("d1", "network", "specific", "explain", "brief");
    assert_eq!(d.title, "Decision policy network / specific");
    assert_eq!(d.content, "decision_mode=explain response_style=brief specialty=network query_category=specific");
    let cp = confidence_policy_hit("cp1", "network", "short", "0.8", "0.5");
    assert_eq!(cp.content, "high_threshold=0.8 medium_threshold=0.5 specialty=network query_category=short");
    assert_eq!(policy_matches("network", "short", "network", "specific"), (true, false));
}

#[test]
fn semantic_text_and_slots() {
    let a = analysis("falla al resolver nombres", DomainSpecialty::Network, &["dns_failure"], &[]);
    assert_eq!(
        semantic_query_text(&a),
        "falla al resolver dns resolucion resolver dominio dominios nombre nombres nombres dns resolucion resolver dominio dominios nombre nombres dns dns resolucion resolver dominio dominios nombre nombres failure"
    );
    assert_eq!(stable_index(""), (1469598103934665603u64 % 64) as usize);
    assert!(stable_index("dns") < 64);
    assert_eq!(stable_index("dns"), stable_index("dns"));
}

#[test]
fn environment_values_and_local_model() {
    assert!(env_flag(Some("TRUE"), false));
    assert!(env_flag(Some("on"), false));
    assert!(!env_flag(Some("0"), true));
    assert!(env_flag(None, true));
    assert_eq!(default_gemma3_base_url(Some("  ")), "http://localhost:11435/v1");
    assert_eq!(default_gemma3_base_url(Some("http://x:1/v1")), "http://x:1/v1");
    assert_eq!(env_key_sources()[0], ("llama-groq", "GROQ_API_KEY"));

    let mut settings = AppSettings::initial("1.0.0", Some("0"), Some("yes"), None);
    assert!(!settings.rag_engine_enabled);
    assert!(settings.rag_compare_mode);
    assert!(!settings.rag_debug_panel);
    assert_eq!(settings.user_role, UserRole::Viewer);

    settings.models.insert(0, ModelConfig {
        id: "gemma4-local".to_string(),
        name: "G4".to_string(),
        provider: "x".to_string(),
        base_url: "u".to_string(),
        api_key: None,
        model_name: "gemma4".to_string(),
        supports_function_calling: false,
        is_local: false,
        max_tokens: 1,
    });
    settings.models[1].base_url = "   ".to_string();
    settings.models[1].max_tokens = 7;
    settings.refresh_local_gemma3(None);
    assert!(settings.models.iter().all(|m| m.id != "gemma4-local"));
    assert_eq!(settings.models[0].id, "gemma3-local");
    assert_eq!(settings.models[0].base_url, "http://localhost:11435/v1");
    assert_eq!(settings.models[0].max_tokens, 500);

    settings.refresh_local_gemma3(Some("http://env:9/v1"));
    assert_eq!(settings.models[0].base_url, "http://env:9/v1");

    let values = vec![Some("gk".to_string()), None, Some(String::new()), None, None];
    settings.inject_api_keys(&values);
    let groq = settings.models.iter().find(|m| m.id == "llama-groq").unwrap();
    assert!(groq.api_key.is_some());
    let deepseek = settings.models.iter().find(|m| m.id == "deepseek-v3").unwrap();
    assert!(deepseek.api_key.is_none());
}

fn check(kind: QuickCheckType, pipeline: &[&str], prompt: Option<&str>) -> QuickCheck {
    QuickCheck {
        id: "qc".to_string(),
        label: "Check".to_string(),
        description: String::new(),
        icon: String::new(),
        color: String::new(),
        kind,
        required_permissions: Vec::new(),
        prompt: prompt.map(|s| s.to_string()),
        tool_pipeline: strings(pipeline),
    }
}

fn ran(success: bool, output: &str, error: Option<&str>) -> PipelineStep {
    PipelineStep::Ran(ToolResult { tool_name: "t".to_string(), success, output: output.to_string(), error: error.map(|s| s.to_string()) })
}

#[test]
fn quick_checks_and_tool_gates() {
    let direct = check(QuickCheckType::DirectTool, &["a", "b"], None);
    let ok = quick_check_result(&direct, &vec![ran(true, "uno", None), ran(true, "dos", None)]);
    assert!(ok.success);
    assert_eq!(ok.output, "uno\n---\ndos");
    assert_eq!(ok.kind, "direct_tool");
    let failed = quick_check_result(&direct, &vec![ran(true, "uno", None), ran(false, "", None)]);
    assert!(!failed.success);
    assert_eq!(failed.error.as_deref(), Some("Fallo en tool: b"));
    let blocked = quick_check_result(&direct, &vec![PipelineStep::Blocked]);
    assert_eq!(blocked.error.as_deref(), Some("Privilegio MegaBoss requerido para este Quick Check."));
    let prompt = quick_check_result(&check(QuickCheckType::LlmPrompt, &[], Some("Revisa")), &Vec::new());
    assert_eq!(prompt.output, "Revisa");
    assert_eq!(prompt.kind, "llm_prompt");

    let mut settings = AppSettings::initial("1.0.0", None, None, None);
    assert_eq!(tool_gate(&settings, "x", false, 0).unwrap_err(), "Debe iniciar sesion antes de ejecutar herramientas");
    assert_eq!(resolve_quick_check(&settings, "system_health").unwrap_err(), "Debe iniciar sesion antes de ejecutar quick checks");
    assert!(visible_quick_checks(&settings, &vec![]).is_err());
    settings.auth.is_authenticated = true;
    let refused = tool_gate(&settings, "kill_process", true, 0).unwrap().unwrap();
    assert!(!refused.success);
    assert!(refused.error.unwrap().starts_with("Privilegio MegaBoss requerido."));
    assert!(tool_gate(&settings, "get_system_info", false, 0).unwrap().is_none());
    settings.megaboss_unlock_until_epoch = Some(100);
    assert!(tool_gate(&settings, "kill_process", true, 99).unwrap().is_none());
    assert_eq!(resolve_quick_check(&settings, "system_health"), Ok(0));
    assert_eq!(resolve_quick_check(&settings, "nope").unwrap_err(), "Quick Check 'nope' no encontrado.");
    assert_eq!(visible_quick_checks(&settings, &vec![false, true, true]).unwrap(), vec![1, 2]);

    assert_eq!(first_given(None, Some("b".to_string()), "model_id").unwrap(), "b");
    assert_eq!(first_given(Some("a".to_string()), Some("b".to_string()), "model_id").unwrap(), "a");
    assert_eq!(first_given(None, None, "model_id").unwrap_err(), "API_VALIDATION: 'model_id' es requerido");
}

#[test]
fn tickets_and_solutions() {
    assert_eq!(ticket_code_from("20240131", Some(-12_345)), "TK-20240131-4345");
    assert_eq!(ticket_code_from("20240131", None), "TK-20240131-4345");
    assert!(rand_ticket_code().starts_with("TK-"));
    let (ticket, result) = new_support_ticket("ticket-1", "TK-1", "pantalla azul al iniciar el equipo de la oficina central hoy", "System", "{}", "now");
    assert_eq!(ticket.priority, "Alta");
    assert_eq!(ticket.status, "open");
    assert_eq!(ticket.title, "Incidencia: pantalla azul al iniciar el equipo de la oficina c");
    assert_eq!(ticket.description, "Consulta no resuelta por RAG/Web: pantalla azul al iniciar el equipo de la oficina central hoy\nEspecialidad: System\nTelemetría: {}");
    assert_eq!(result.customer_message, "Se ha generado el ticket de soporte #TK-1 con prioridad Alta. Un especialista técnico revisará tu caso.");

    let s = validated_solution("sin dns", "flush");
    assert_eq!(s.title, "Solución Validada: sin dns");
    assert_eq!(s.chunk_text, "Problema: sin dns\nSolución Validada: flush");
}

#[test]
fn operational_context_lists_the_reading() {
    let a = assess_message("el internet esta malo y tengo ping alto", &[]);
    let ctx = to_operational_context(&a, "red (80%)");
    assert!(ctx.starts_with("[KERNEL_INTENT]\nintent=Network\nemotion="));
    assert!(ctx.contains("\nhypotheses=red (80%)\nplan=Validar contexto operativo y permisos de ejecucion | "));
}
