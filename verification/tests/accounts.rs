use kernelia::chat::{ChatMessage, MessageRole};
use kernelia::assistant::AiRouter;
use kernelia::commands::{auth_status_at, can_mask_username, mask_username, megaboss_unlock_minutes, model_infos, require_authenticated, support_users};
use kernelia::elevation::{evaluate_risk_level, verify_technical_password};
use kernelia::encryption::Encryption;
use kernelia::models::TicketPriority;
use kernelia::settings::{AppSettings, AuthState, OllamaConfig, SupportProfile, UserRole};
use kernelia::tickets::infer_ticket_priority;

fn settings() -> AppSettings {
    AppSettings {
        version: "1.0.0".to_string(),
        first_run: true,
        selected_model: "gemma3-local".to_string(),
        rag_engine_enabled: true,
        rag_compare_mode: false,
        rag_debug_panel: false,
        rag_show_confidence_badge: true,
        models: AppSettings::default_models(),
        ollama: OllamaConfig::default(),
        language: "es".to_string(),
        theme: "dark".to_string(),
        max_history_messages: 50,
        confirm_dangerous_actions: true,
        user_role: UserRole::Viewer,
        users: AppSettings::default_users(),
        auth: AuthState::default(),
        tecnico_critical_password_encrypted: None,
        megaboss_password_encrypted: None,
        megaboss_unlock_until_epoch: None,
        quick_checks: AppSettings::default_quick_checks(),
    }
}

#[test]
fn encryption_round_trips_on_this_machine() {
    let c = Encryption::encrypt("secreto-123").expect("encrypt");
    assert_ne!(c, "secreto-123");
    assert_eq!(Encryption::decrypt(&c), Ok("secreto-123".to_string()));
    assert_eq!(Encryption::decrypt("AAAA"), Err("Ciphertext too short".to_string()));
    assert!(Encryption::decrypt("%%%").unwrap_err().starts_with("Base64 decode error"));
}

#[test]
fn login_and_logout_follow_accounts() {
    let mut s = settings();
    assert_eq!(s.login("SuperAdmin", "KernelIA!Super2026"), Ok(SupportProfile::Superusuario));
    assert!(s.auth.is_authenticated);
    assert_eq!(s.auth.current_username.as_deref(), Some("superadmin"));
    assert_eq!(s.user_role, UserRole::Owner);
    assert!(s.is_superuser());
    s.logout();
    assert!(!s.auth.is_authenticated);
    assert_eq!(s.user_role, UserRole::Viewer);
    assert_eq!(s.login("tecnico", "wrong"), Err("Credenciales invalidas".to_string()));
    assert!(!s.auth.is_authenticated);
    assert_eq!(s.login("nadie", "x"), Err("Usuario no encontrado o inactivo".to_string()));
}

#[test]
fn superuser_creates_and_deletes_accounts() {
    let mut s = settings();
    assert_eq!(s.create_user("ana", "password123", SupportProfile::Soporte1), Err("Solo el superusuario puede crear usuarios".to_string()));
    s.login("superadmin", "KernelIA!Super2026").unwrap();
    let before: Vec<String> = s.users.iter().map(|u| u.username.clone()).collect();
    assert_eq!(s.create_user("ab", "password123", SupportProfile::Soporte1), Err("El usuario debe tener al menos 3 caracteres".to_string()));
    assert_eq!(s.create_user("ana", "corta", SupportProfile::Soporte1), Err("La contrasena debe tener al menos 8 caracteres".to_string()));
    assert_eq!(s.create_user("TECNICO", "password123", SupportProfile::Soporte1), Err("El usuario ya existe".to_string()));
    assert_eq!(s.create_user("ana", "password123", SupportProfile::Soporte1), Ok(()));
    assert_eq!(s.users.len(), 4);
    assert_eq!(s.delete_user("Superadmin"), Err("No se puede borrar el superadmin base".to_string()));
    assert_eq!(s.delete_user(" ANA "), Ok(()));
    let after: Vec<String> = s.users.iter().map(|u| u.username.clone()).collect();
    assert_eq!(before, after);
    assert_eq!(s.delete_user("ana"), Err("Usuario no encontrado".to_string()));
}

#[test]
fn passwords_and_elevations() {
    let mut s = settings();
    assert_eq!(s.set_megaboss_password("  12345  "), Err("La clave MegaBoss debe tener al menos 6 caracteres.".to_string()));
    assert!(!s.verify_megaboss_password("123456"));
    s.set_megaboss_password("123456").unwrap();
    assert!(s.verify_megaboss_password("123456"));
    assert!(!s.verify_megaboss_password("654321"));
    s.unlock_megaboss_until(1_000, 20).unwrap();
    assert_eq!(s.megaboss_unlock_until_epoch, Some(2_200));
    assert!(s.megaboss_unlocked_at(2_199));
    assert!(!s.megaboss_unlocked_at(2_200));
    assert_eq!(s.unlock_tecnico_critical_until(0, 5), Err("Solo el perfil Tecnico puede usar esta elevacion".to_string()));
    s.login("tecnico", "KernelIA!Tech2026").unwrap();
    s.unlock_tecnico_critical_until(100, 1).unwrap();
    assert_eq!(s.user_role, UserRole::PowerUser);
    s.refresh_tecnico_role_at(200);
    assert_eq!(s.user_role, UserRole::Viewer);
    assert_eq!(megaboss_unlock_minutes(None), 20);
    assert_eq!(megaboss_unlock_minutes(Some(1000)), 240);
}

#[test]
fn models_and_keys() {
    let mut s = settings();
    assert_eq!(s.current_model().map(|m| m.model_name.clone()), Some("gemma:2b".to_string()));
    assert_eq!(s.set_api_key("nope", "k"), Err("Model 'nope' not found".to_string()));
    assert_eq!(s.get_api_key("glm-5"), None);
    s.set_api_key("glm-5", "clave-glm").unwrap();
    assert_eq!(s.get_api_key("glm-5"), Some("clave-glm".to_string()));
    let infos = model_infos(&s);
    assert_eq!(infos.len(), 6);
    assert!(infos[0].selected && infos[0].is_local);
    assert!(infos[1].has_api_key);
    assert_eq!(AppSettings::default_quick_checks().len(), 53);
    assert_eq!(AppSettings::default_quick_checks()[1].id, "slow_pc");
}

#[test]
fn session_views_mask_and_gate() {
    let mut s = settings();
    assert_eq!(require_authenticated(&s), Err("Debe iniciar sesion para usar KernelIA".to_string()));
    assert_eq!(mask_username("ab"), "**");
    assert_eq!(mask_username("tecnico"), "te***");
    assert_eq!(mask_username("ñandu"), "ñ***");
    assert!(!can_mask_username("añb"));
    s.login("soporte1", "KernelIA!Support2026").unwrap();
    let st = auth_status_at(&s, 0);
    assert_eq!(st.username.as_deref(), Some("so***"));
    assert_eq!(st.role, "PowerUser");
    assert_eq!(support_users(&s).unwrap_err(), "Solo el superusuario puede listar usuarios");
}

#[test]
fn assistant_history_keeps_system_messages() {
    let mut r = AiRouter::new(settings());
    assert_eq!(r.history.len(), 2);
    assert!(r.history[0].content.starts_with("Eres KERNEL IA"));
    assert_eq!(r.set_model("deepseek-v3"), Ok(()));
    assert_eq!(r.settings.selected_model, "deepseek-v3");
    assert_eq!(r.set_model("x"), Err("Model 'x' not found".to_string()));
    r.history.push(kernelia::chat::ChatMessage { role: kernelia::chat::MessageRole::User, content: "hola".to_string(), reasoning_content: None, tool_call_id: None, tool_calls: None });
    assert_eq!(r.recent_context_window(6), vec!["hola".to_string()]);
    r.clear_history();
    assert_eq!(r.history.len(), 2);
}

#[test]
fn elevation_and_ticket_rules() {
    let ok = verify_technical_password(" superadmin123 ", "tech");
    assert!(ok.success);
    assert_eq!(ok.authenticated_role, "superadmin");
    let bad = verify_technical_password("x", "tech");
    assert!(!bad.success);
    assert_eq!(bad.authenticated_role, "tech");
    assert_eq!(bad.error_code.as_deref(), Some("INVALID_CREDENTIALS"));
    assert_eq!(evaluate_risk_level("Remove-Item C:/x"), "R4");
    assert_eq!(evaluate_risk_level("reboot"), "R3");
    assert_eq!(evaluate_risk_level("Restart-Service spooler"), "R2");
    assert_eq!(evaluate_risk_level("ipconfig /flushdns"), "R1");
    assert_eq!(evaluate_risk_level("get-process"), "R0");
    assert_eq!(infer_ticket_priority("Pantalla azul al iniciar"), TicketPriority::Alta);
    assert_eq!(infer_ticket_priority("la impresora no responde"), TicketPriority::Media);
    assert_eq!(infer_ticket_priority("pregunta general"), TicketPriority::Baja);
}

#[test]
fn new_assistant_holds_plain_system_messages_and_clearing_keeps_them_whole() {
    let mut r = AiRouter::new(settings());
    assert!(r.history.iter().all(|m| m.role == MessageRole::System
        && m.reasoning_content.is_none()
        && m.tool_call_id.is_none()
        && m.tool_calls.is_none()));
    r.history.push(ChatMessage { role: MessageRole::User, content: "hola".to_string(), reasoning_content: None, tool_call_id: None, tool_calls: None });
    r.history.push(ChatMessage {
        role: MessageRole::System,
        content: "nota".to_string(),
        reasoning_content: Some("razon".to_string()),
        tool_call_id: Some("c9".to_string()),
        tool_calls: None,
    });
    r.clear_history();
    assert_eq!(r.history.len(), 3);
    assert_eq!(r.history[2].content, "nota");
    assert_eq!(r.history[2].reasoning_content.as_deref(), Some("razon"));
    assert_eq!(r.history[2].tool_call_id.as_deref(), Some("c9"));
    r.clear_history();
    assert_eq!(r.history.len(), 3);
}

#[test]
fn unlocking_for_zero_minutes_succeeds_and_technicians_alone_elevate() {
    let mut s = settings();
    assert_eq!(s.unlock_megaboss_for_minutes(0), Ok(()));
    assert!(s.megaboss_unlock_until_epoch.is_some());
    assert!(!s.is_megaboss_unlocked());
    assert_eq!(s.unlock_megaboss_for_minutes(i64::MAX), Err("Duracion de desbloqueo fuera de rango".to_string()));
    assert_eq!(s.unlock_megaboss_for_minutes(10), Ok(()));
    assert!(s.is_megaboss_unlocked());
    let before = s.user_role;
    assert_eq!(
        s.unlock_tecnico_critical_for_minutes(10),
        Err("Solo el perfil Tecnico puede usar esta elevacion".to_string())
    );
    assert_eq!(s.user_role, before);
    s.auth.current_profile = Some(SupportProfile::Tecnico);
    assert_eq!(s.unlock_tecnico_critical_for_minutes(10), Ok(()));
    assert_eq!(s.user_role, UserRole::PowerUser);
    s.refresh_tecnico_role_if_needed();
    assert_eq!(s.user_role, UserRole::PowerUser);
    s.auth.tecnico_critical_unlock_until_epoch = Some(0);
    s.refresh_tecnico_role_if_needed();
    assert_eq!(s.user_role, UserRole::Viewer);
}
