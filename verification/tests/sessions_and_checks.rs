use base64::Engine;
use kernelia::assistant::{
    bound_history, exchange_response, fast_path_response, new_session_id, new_trace_id, ollama_probe_urls,
    runner_instance, AiRouter, RagComparisonContext, RagUiContext,
};
use kernelia::chat::{ChatMessage, MessageRole};
use kernelia::clock::{date_text, epoch_nanos, epoch_seconds};
use kernelia::encryption::{machine_key, Encryption};
use kernelia::function_calling::{FunctionCallingResult, ToolInfo};
use kernelia::ingest::{ingest_source, IngestReport};
use kernelia::intent_engine::{build_hypotheses, hypotheses_text, IntentCategory};
use kernelia::live_state::{assemble_live_state, LiveProbe, SnapshotFacts};
use kernelia::models::DomainSpecialty;
use kernelia::settings::AppSettings;
use kernelia::verification::{
    finish_verification, format_verification_result, resolve_placeholder, resolve_verify_args,
    rule_missing_outcome, substitute_placeholders, verification_gate, verification_trace_text, ArgValue,
    ToolResult, VerificationRule,
};

fn message(role: MessageRole, content: &str) -> ChatMessage {
    ChatMessage { role, content: content.to_string(), reasoning_content: None, tool_call_id: None, tool_calls: None }
}

fn object(entries: Vec<(&str, ArgValue)>) -> ArgValue {
    ArgValue::Object(entries.into_iter().map(|(k, v)| (k.to_string(), v)).collect())
}

fn text(s: &str) -> ArgValue {
    ArgValue::Text(s.to_string())
}

fn entry<'a>(value: &'a ArgValue, key: &str) -> Option<&'a ArgValue> {
    match value {
        ArgValue::Object(es) => es.iter().find(|(k, _)| k == key).map(|(_, v)| v),
        _ => None,
    }
}

fn text_of(value: Option<&ArgValue>) -> Option<String> {
    match value {
        Some(ArgValue::Text(t)) => Some(t.clone()),
        _ => None,
    }
}

fn empty_ui() -> RagUiContext {
    RagUiContext {
        enabled: false,
        specialty: None,
        confidence_level: None,
        decision_mode: None,
        risk_level: None,
        trace_id: None,
        show_summary_badge: false,
        debug_panel_enabled: false,
        retrieval_counts: Vec::new(),
        reason_codes: Vec::new(),
        live_conflicts: Vec::new(),
    }
}

fn settings() -> AppSettings {
    AppSettings::initial("1.0.0", None, None, None)
}

fn verify_rule(condition: &str) -> VerificationRule {
    VerificationRule {
        tool_name: "restart_service".to_string(),
        verify_tool_name: "get_service_status".to_string(),
        verify_args_json: "{\"name\":\"<service_name>\"}".to_string(),
        expected_condition: condition.to_string(),
    }
}

fn run_result(success: bool, output: &str) -> ToolResult {
    ToolResult { tool_name: "get_service_status".to_string(), success, output: output.to_string(), error: None }
}

#[test]
fn substitutes_service_name_placeholder() {
    let args = object(vec![("name", text("Spooler"))]);
    let template = object(vec![("name", text("<service_name>"))]);
    let resolved = resolve_verify_args(Some(template), &args);
    assert_eq!(text_of(entry(&resolved, "name")), Some("Spooler".to_string()));
}

#[test]
fn service_name_placeholder_uses_the_given_name_or_spooler() {
    let args = object(vec![("name", text("wuauserv"))]);
    assert_eq!(resolve_placeholder("<service_name>", &args), "wuauserv");
    assert_eq!(resolve_placeholder("<service_name>", &object(vec![])), "Spooler");
    assert_eq!(resolve_placeholder("<service_name>", &object(vec![("name", ArgValue::Integer(4))])), "Spooler");
    assert_eq!(resolve_placeholder("<service_name>", &text("x")), "Spooler");
}

#[test]
fn pid_placeholder_takes_integer_or_text() {
    assert_eq!(resolve_placeholder("<pid>", &object(vec![("pid", ArgValue::Integer(123))])), "123");
    assert_eq!(resolve_placeholder("<pid>", &object(vec![("pid", ArgValue::Integer(-7))])), "-7");
    assert_eq!(resolve_placeholder("<pid>", &object(vec![("pid", text("4711"))])), "4711");
    assert_eq!(resolve_placeholder("<pid>", &object(vec![("pid", ArgValue::Other("1.5".to_string()))])), "");
    assert_eq!(resolve_placeholder("<pid>", &object(vec![])), "");
    assert_eq!(resolve_placeholder("plain", &object(vec![])), "plain");
}

#[test]
fn placeholders_resolve_inside_lists_and_keep_other_values() {
    let args = object(vec![("name", text("Spooler")), ("pid", ArgValue::Integer(42))]);
    let template = object(vec![
        ("targets", ArgValue::List(vec![text("<service_name>"), text("<pid>"), ArgValue::Other("true".to_string())])),
        ("count", ArgValue::Integer(3)),
    ]);
    let resolved = substitute_placeholders(&template, &args);
    match entry(&resolved, "targets") {
        Some(ArgValue::List(items)) => {
            assert_eq!(items.len(), 3);
            assert!(matches!(&items[0], ArgValue::Text(t) if t == "Spooler"));
            assert!(matches!(&items[1], ArgValue::Text(t) if t == "42"));
            assert!(matches!(&items[2], ArgValue::Other(t) if t == "true"));
        }
        _ => panic!("targets should stay a list"),
    }
    assert!(matches!(entry(&resolved, "count"), Some(ArgValue::Integer(3))));
}

#[test]
fn unreadable_template_gives_empty_arguments() {
    let resolved = resolve_verify_args(None, &object(vec![("name", text("Spooler"))]));
    assert!(matches!(resolved, ArgValue::Object(es) if es.is_empty()));
}

#[test]
fn verification_without_rule_is_skipped() {
    let outcome = rule_missing_outcome();
    assert!(outcome.skipped);
    assert!(!outcome.verified);
    assert_eq!(outcome.reason_code, "VERIFY_RULE_MISSING");
    assert_eq!(outcome.verification_result, "No hay regla de verificacion registrada.");
}

#[test]
fn owner_only_verifier_is_blocked_while_locked() {
    let rule = verify_rule("service_running");
    let blocked = verification_gate(&rule, "{\"name\":\"Spooler\"}", true, false).expect("should be blocked");
    assert!(blocked.skipped);
    assert_eq!(blocked.reason_code, "VERIFY_PRIVILEGE_BLOCKED");
    assert_eq!(blocked.verify_tool_name.as_deref(), Some("get_service_status"));
    assert_eq!(blocked.verify_args.as_deref(), Some("{\"name\":\"Spooler\"}"));
    assert!(verification_gate(&rule, "{}", true, true).is_none());
    assert!(verification_gate(&rule, "{}", false, false).is_none());
}

#[test]
fn finished_verification_reports_ok_or_failed() {
    let rule = verify_rule("service_running");
    let ok = finish_verification(&rule, "restart_service", "{\"name\":\"Spooler\"}", &run_result(true, "STATE : 4  RUNNING"));
    assert!(ok.verified);
    assert!(!ok.skipped);
    assert_eq!(ok.reason_code, "VERIFY_OK");
    assert_eq!(
        ok.verification_result,
        "tool=restart_service verify_tool=get_service_status expected_condition=service_running verified=true verify_args={\"name\":\"Spooler\"} result_success=true result_output=STATE : 4 RUNNING"
    );
    let failed = finish_verification(&rule, "restart_service", "{}", &run_result(true, "STOPPED"));
    assert!(!failed.verified);
    assert_eq!(failed.reason_code, "VERIFY_FAILED");
}

#[test]
fn verification_log_cuts_long_output() {
    let rule = verify_rule("diagnostic_completed");
    let long = "a".repeat(300);
    let line = format_verification_result(&rule, "{}", &run_result(true, &long), true);
    assert!(line.ends_with(&format!("result_output={}...", "a".repeat(240))));
    let trace = verification_trace_text(&rule, "{}", &run_result(false, "  x   y "));
    assert_eq!(trace, "expected=diagnostic_completed verify_args={} result_success=false verifier_output=x y");
}

#[test]
fn ingest_records_sources_and_counts() {
    let source = ingest_source("/corpus/network/dns.md", Some("network".to_string()));
    assert_eq!(source.source_kind, "markdown");
    assert_eq!(source.specialty, "network");
    assert_eq!(ingest_source("dns.md", None).specialty, "unknown");
    let mut report = IngestReport::start("/corpus", 2);
    report.note_document(3);
    report.note_document(4);
    assert_eq!(report.files_discovered, 2);
    assert_eq!(report.documents_ingested, 2);
    assert_eq!(report.chunks_ingested, 7);
}

#[test]
fn encryption_round_trips_with_a_fixed_key() {
    let key = [7u8; 32];
    let nonce = [1u8; 12];
    let sealed = Encryption::encrypt_with(&key, &nonce, "clave secreta").expect("seal");
    assert_ne!(sealed, "clave secreta");
    assert_eq!(Encryption::decrypt_with(&key, &sealed).expect("open"), "clave secreta");
    assert!(Encryption::decrypt_with(&[8u8; 32], &sealed).is_err());
    assert_eq!(Encryption::decrypt_with(&key, "AAAA"), Err("Ciphertext too short".to_string()));
}

#[test]
fn sealed_text_is_base64_of_nonce_then_sealing() {
    let key = [7u8; 32];
    let nonce = [1u8; 12];
    let sealed = Encryption::encrypt_with(&key, &nonce, "abc").expect("seal");
    let stored = base64::engine::general_purpose::STANDARD.decode(&sealed).expect("base64");
    assert_eq!(stored.len(), 12 + 3 + 16);
    assert_eq!(&stored[..12], &nonce[..]);
    assert_ne!(&stored[12..15], b"abc");
}

#[test]
fn machine_key_is_hmac_of_the_label_under_the_host_salt() {
    let expected = |salt: &str| {
        let k = ring::hmac::Key::new(ring::hmac::HMAC_SHA256, salt.as_bytes());
        ring::hmac::sign(&k, b"nexus-lite-encryption-key").as_ref().to_vec()
    };
    assert_eq!(machine_key(Ok("equipo-1".to_string())), expected("NEXUS-LITE-2026-equipo-1"));
    assert_eq!(machine_key(Err("sin nombre".to_string())), expected("NEXUS-LITE-2026-nexus-lite-default"));
    assert_ne!(machine_key(Ok("equipo-1".to_string())), machine_key(Ok("equipo-2".to_string())));
}

#[test]
fn machine_key_round_trips() {
    let sealed = Encryption::encrypt("token-123").expect("seal");
    assert_eq!(Encryption::decrypt(&sealed).expect("open"), "token-123");
}

#[test]
fn new_identifiers_have_their_prefix_and_length() {
    let trace = new_trace_id().expect("random source");
    assert!(trace.starts_with("trace_"));
    assert_eq!(trace.len(), 38);
    let session = new_session_id().expect("random source");
    assert!(session.starts_with("sess_"));
    assert_eq!(session.len(), 37);
    assert_ne!(new_session_id().unwrap(), session);
    let digits = &trace[6..];
    assert!(digits.chars().all(|c| c.is_ascii_digit() || ('a'..='f').contains(&c)));
    assert_eq!(&digits[12..13], "4");
    assert!("89ab".contains(&digits[16..17]));
}

#[test]
fn clock_readings_become_epoch_seconds_and_nanoseconds() {
    assert_eq!(epoch_seconds(Ok((1_700_000_000, 5))), 1_700_000_000);
    assert_eq!(epoch_seconds(Err((2, 0))), -2);
    assert_eq!(epoch_seconds(Err((2, 1))), -3);
    assert_eq!(epoch_seconds(Ok((u64::MAX, 0))), i64::MAX);
    assert_eq!(epoch_seconds(Err((u64::MAX, 0))), i64::MIN);
    assert_eq!(epoch_nanos(Ok((3, 7))), Some(3_000_000_007));
    assert_eq!(epoch_nanos(Err((3, 7))), Some(-3_000_000_007));
    assert_eq!(epoch_nanos(Ok((10_000_000_000, 0))), None);
    assert_eq!(date_text(0), "19700101");
    assert_eq!(date_text(1_431_648_000), "20150515");
    assert_eq!(date_text(i64::MAX), "");
}

#[test]
fn history_keeps_system_messages_and_newest_turns() {
    let mut messages = vec![message(MessageRole::System, "system")];
    for i in 0..6 {
        messages.push(message(MessageRole::User, &format!("msg-{}", i)));
    }
    let bounded = bound_history(messages, 4);
    assert_eq!(bounded.len(), 4);
    assert_eq!(bounded[0].content, "system");
    assert_eq!(bounded[1].content, "msg-3");
    assert_eq!(bounded[3].content, "msg-5");
}

#[test]
fn router_adopts_history_within_its_bound() {
    let mut router = AiRouter::new(settings());
    let max = router.settings.max_history_messages;
    let mut messages = vec![message(MessageRole::System, "system")];
    for i in 0..(max + 3) {
        messages.push(message(MessageRole::Assistant, &format!("reply-{}", i)));
    }
    router.adopt_history(messages);
    assert_eq!(router.history.len(), max);
    assert_eq!(router.history[0].content, "system");
    assert_eq!(router.history[max - 1].content, format!("reply-{}", max + 2));
    router.push_user_message("hola");
    assert_eq!(router.history.last().map(|m| m.content.clone()), Some("hola".to_string()));
}

#[test]
fn exchange_response_carries_text_tools_or_error() {
    let result = FunctionCallingResult {
        response: "listo".to_string(),
        tools_used: vec![ToolInfo { name: "dns_lookup".to_string(), arguments: "{\"host\":\"a\"}".to_string() }],
    };
    let ok = exchange_response(Ok(result), "glm-5", empty_ui(), None);
    assert_eq!(ok.text, "listo");
    assert_eq!(ok.model, "glm-5");
    assert_eq!(ok.tools_used.len(), 1);
    assert_eq!(ok.tools_used[0].name, "dns_lookup");
    assert!(ok.error.is_none());
    let failed = exchange_response(Err("sin red".to_string()), "glm-5", empty_ui(), None);
    assert_eq!(failed.text, "");
    assert_eq!(failed.error.as_deref(), Some("sin red"));
    let fast = fast_path_response("OK");
    assert_eq!(fast.model, "kernel-fastpath");
    assert_eq!(fast.text, "OK");
    assert!(fast.rag_comparison.is_none());
}

#[test]
fn exchange_response_carries_the_comparison() {
    let comparison = RagComparisonContext {
        legacy_intent: "network".to_string(),
        legacy_plan: vec!["ping".to_string()],
        rag_specialty: "network".to_string(),
        rag_decision: "answer".to_string(),
    };
    let failed = exchange_response(Err("sin red".to_string()), "glm-5", empty_ui(), Some(comparison));
    let shown = failed.rag_comparison.expect("comparison kept");
    assert_eq!(shown.legacy_intent, "network");
    assert_eq!(shown.legacy_plan, vec!["ping".to_string()]);
    assert_eq!(shown.rag_decision, "answer");
}

#[test]
fn probe_urls_follow_settings() {
    let s = settings();
    let (runner, runner_url, local, hosts) = ollama_probe_urls(&s);
    assert_eq!(runner, Some(0));
    assert_eq!(runner_url.as_deref(), Some("http://localhost:11435/v1/models"));
    assert_eq!(local, "http://localhost:11434/api/tags");
    assert_eq!(hosts, vec!["http://192.168.1.101:11434/api/tags".to_string(), "http://192.168.1.102:11434/api/tags".to_string()]);
    let instance = runner_instance(&s.models[0]);
    assert_eq!(instance.host, "localhost:11435/v1");
    assert_eq!(instance.models[0].name, "gemma:2b");
    assert!(instance.is_local);
}

#[test]
fn live_state_combines_observations_and_conflicts() {
    let probe = LiveProbe {
        network_local_ip: None,
        network_check_results: None,
        spooler_output: "STATE              : 4  RUNNING".to_string(),
        driver_output: String::new(),
        health_output: String::new(),
    };
    let snapshot = SnapshotFacts {
        network_local_ip: String::new(),
        services_spooler: "stopped".to_string(),
        drivers_issue_code: 0,
    };
    let live = assemble_live_state(
        DomainSpecialty::Services,
        &probe,
        Some(&snapshot),
        Some("manual".to_string()),
        "{}".to_string(),
        None,
    );
    assert_eq!(live.observations, vec!["spooler_running".to_string()]);
    assert_eq!(live.conflict_flags, vec!["service_state_changed".to_string()]);
    assert_eq!(
        live.summary,
        vec!["snapshot_reciente=manual".to_string(), "spooler_running".to_string(), "conflict=service_state_changed".to_string()]
    );
    assert_eq!(live.current_state, "{}");
}

fn analysis_for(
    text: &str,
    category: kernelia::models::QueryCategory,
    specialty: DomainSpecialty,
    entities: Vec<&str>,
    requires_clarification: bool,
) -> kernelia::models::QueryAnalysis {
    kernelia::models::QueryAnalysis {
        normalized_text: text.to_string(),
        query_category: category,
        specialty,
        urgency: "normal".to_string(),
        symptoms: Vec::new(),
        entities: entities.into_iter().map(|e| e.to_string()).collect(),
        ambiguity_pct: 20,
        requires_clarification,
    }
}

#[test]
fn consistent_retrieval_gives_supporting_findings() {
    let analysis = analysis_for(
        "no tengo internet revisa dns",
        kernelia::models::QueryCategory::ActionRequest,
        DomainSpecialty::Network,
        vec!["dns"],
        false,
    );
    let (codes, use_context, ask) = kernelia::confidence::confidence_evidence(&analysis, true, true, true);
    assert_eq!(
        codes,
        vec!["KNOWLEDGE_EVIDENCE", "COMMAND_EVIDENCE", "POLICY_EVIDENCE", "SPECIALTY_RESOLVED", "ENTITY_RESOLVED"]
    );
    assert!(use_context);
    assert!(!ask);
}

#[test]
fn ambiguous_query_without_evidence_asks_to_clarify() {
    let analysis = analysis_for("ayuda", kernelia::models::QueryCategory::Short, DomainSpecialty::Unknown, vec![], true);
    let (codes, use_context, ask) = kernelia::confidence::confidence_evidence(&analysis, false, false, false);
    assert_eq!(
        codes,
        vec!["KNOWLEDGE_MISSING", "POLICY_MISSING", "SPECIALTY_UNKNOWN", "CLARIFICATION_REQUIRED", "QUERY_LOW_PRECISION"]
    );
    assert!(!use_context);
    assert!(ask);
}

#[test]
fn network_hypotheses_follow_symptoms_and_wifi() {
    let symptoms = vec!["sin internet".to_string()];
    let hs = build_hypotheses(IntentCategory::Network, &symptoms, "no hay internet por wifi");
    assert_eq!(hs.len(), 2);
    assert_eq!(hs[0].label, "Problema DNS o gateway");
    assert_eq!(hs[0].confidence_pct, 82);
    assert_eq!(hs[1].confidence_pct, 58);
    assert_eq!(hypotheses_text(&hs), "Problema DNS o gateway (82%), Inestabilidad WiFi (58%)");
    let plain = build_hypotheses(IntentCategory::Network, &[], "ping alto");
    assert_eq!(hypotheses_text(&plain), "Problema DNS o gateway (64%)");
    let general = build_hypotheses(IntentCategory::GeneralSupport, &[], "hola");
    assert_eq!(hypotheses_text(&general), "Se requiere diagnostico basico guiado (55%)");
}

#[test]
fn history_boundability_depends_on_leading_system_messages() {
    let many_system = vec![message(MessageRole::System, "a"), message(MessageRole::System, "b"), message(MessageRole::User, "c")];
    assert!(kernelia::assistant::boundable_history(&many_system, 3));
    assert!(kernelia::assistant::boundable_history(&many_system, 2));
    assert!(!kernelia::assistant::boundable_history(&many_system, 1));
}
