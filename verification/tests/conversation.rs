use kernelia::chat::{ChatMessage, MessageRole};
use kernelia::function_calling::{
    build_tool_shortlist, normalize_messages_for_local, parse_tool_calls_from_text, parse_tool_calls_with_id,
    shortlist_for_tools,
};
use kernelia::tool_catalog::{ToolDefinition, ToolEngine};

fn catalog() -> Vec<ToolDefinition> {
    let names = [
        "run_network_diagnostic", "get_network_adapters", "get_local_ip", "get_default_gateway", "get_dns_servers",
        "get_wifi_info", "get_public_ip", "ping_host", "dns_lookup", "traceroute_host", "test_tcp_port",
        "get_network_usage", "list_processes", "get_system_info", "health_summary",
    ];
    names
        .iter()
        .map(|n| ToolDefinition { name: n.to_string(), description: format!("desc {}", n), parameters: "{}".to_string() })
        .collect()
}

fn msg(role: MessageRole, content: &str) -> ChatMessage {
    ChatMessage { role, content: content.to_string(), reasoning_content: None, tool_call_id: None, tool_calls: None }
}

#[test]
fn shortlist_for_network_query_is_bounded() {
    let tools = build_tool_shortlist("cuantas tarjetas de red tiene el equipo", &catalog());
    assert!(!tools.is_empty());
    assert!(tools.len() <= 12);
    assert!(tools.iter().any(|t| t.name == "get_network_adapters"));
}

#[test]
fn local_normalization_trims_long_history() {
    let mut msgs = Vec::new();
    msgs.push(msg(MessageRole::System, "system"));
    for i in 0..40 {
        msgs.push(msg(if i % 2 == 0 { MessageRole::User } else { MessageRole::Assistant }, &format!("msg-{i}")));
    }
    let normalized = normalize_messages_for_local(&msgs, true, &ToolEngine::get_tool_definitions());
    assert!(!normalized.is_empty());
    assert!(normalized.len() <= 13);
}

#[test]
fn shortlist_falls_back_to_catalog_head() {
    let defs = ToolEngine::get_tool_definitions();
    let tools = build_tool_shortlist("hola", &defs);
    assert_eq!(tools.len(), 1);
    assert_eq!(tools[0].name, "run_network_diagnostic");
    assert!(build_tool_shortlist("hola", &[]).is_empty());
}

#[test]
fn local_history_alternates_and_ends_with_user() {
    let msgs = vec![
        msg(MessageRole::System, "reglas"),
        msg(MessageRole::Assistant, "hola"),
        msg(MessageRole::Assistant, "sigo"),
        msg(MessageRole::Tool, "salida"),
        msg(MessageRole::User, "   "),
        msg(MessageRole::Assistant, ""),
    ];
    let out = normalize_messages_for_local(&msgs, false, &[]);
    assert_eq!(out[0].role, MessageRole::User);
    assert!(out[0].content.starts_with("[INSTRUCCIONES DE SISTEMA]:\nreglas\n\n[MENSAJE]:\n"));
    assert_eq!(out.last().unwrap().role, MessageRole::User);
    for w in out.windows(2) {
        assert_ne!(w[0].role, w[1].role);
    }
    assert_eq!(out[1].role, MessageRole::Assistant);
    assert_eq!(out[1].content, "hola\n\nsigo");
    assert!(out[2].content.contains("[RESULTADO DE LA HERRAMIENTA]:\nsalida"));
    assert!(out[2].content.ends_with("\n\n(Sin contenido)"));
    assert_eq!(out[3].content, "[Procesando...]");
    assert!(normalize_messages_for_local(&[], true, &[]).is_empty());
}

#[test]
fn system_only_history_gets_a_greeting_turn() {
    let msgs = vec![msg(MessageRole::System, "a"), msg(MessageRole::System, "b")];
    let out = normalize_messages_for_local(&msgs, false, &[]);
    assert_eq!(out.len(), 1);
    assert_eq!(out[0].content, "[SISTEMA]: a\n\nb\n\nHola, KERNEL IA.");
}

#[test]
fn local_history_depends_only_on_system_texts_and_recent_messages() {
    let mut a = vec![msg(MessageRole::System, "reglas")];
    let mut b = vec![msg(MessageRole::System, "reglas")];
    for i in 0..5 {
        a.push(msg(MessageRole::User, &format!("viejo-a-{i}")));
        b.push(msg(MessageRole::Assistant, &format!("viejo-b-{i}")));
    }
    for i in 0..12 {
        let m = msg(if i % 2 == 0 { MessageRole::User } else { MessageRole::Assistant }, &format!("reciente-{i}"));
        a.push(m.clone());
        b.push(m);
    }
    let defs = ToolEngine::get_tool_definitions();
    let na = normalize_messages_for_local(&a, true, &defs);
    let nb = normalize_messages_for_local(&b, true, &defs);
    assert_eq!(na.len(), nb.len());
    for (x, y) in na.iter().zip(nb.iter()) {
        assert_eq!(x.role, y.role);
        assert_eq!(x.content, y.content);
    }
}

#[test]
fn shortlist_follows_the_preferred_tools() {
    let tools = shortlist_for_tools(&vec!["dns_lookup", "no_existe", "ping_host"], &catalog());
    let names: Vec<&str> = tools.iter().map(|t| t.name.as_str()).collect();
    assert_eq!(names, vec!["dns_lookup", "ping_host"]);
    let fallback = shortlist_for_tools(&vec!["no_existe"], &catalog());
    assert_eq!(fallback.len(), 12);
    assert_eq!(fallback[0].name, "run_network_diagnostic");
}

#[test]
fn tool_calls_read_from_text_carry_the_drawn_id() {
    let text = "```json\n{\"name\": \"dns_lookup\", \"arguments\": {\"host\": \"a\"}}\n```";
    let calls = parse_tool_calls_with_id(text, Some("0123456789abcdef0123456789abcdef".to_string()));
    assert_eq!(calls.len(), 1);
    assert_eq!(calls[0].function.name, "dns_lookup");
    assert_eq!(calls[0].function.arguments, "{\"host\":\"a\"}");
    assert_eq!(calls[0].id.as_deref(), Some("call_0123456789abcdef0123456789abcdef"));
    let unnamed = parse_tool_calls_with_id(text, None);
    assert!(unnamed[0].id.is_none());
    let fresh = parse_tool_calls_from_text(text);
    let id = fresh[0].id.clone().expect("random source");
    assert!(id.starts_with("call_"));
    assert_eq!(id.len(), 37);
    assert!(parse_tool_calls_with_id("sin llamadas", None).is_empty());
}
