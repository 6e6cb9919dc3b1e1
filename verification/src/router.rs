//! Local-first routing: which requests a read-only diagnostic tool answers
//! directly, before any model is asked.

use vstd::prelude::*;
use crate::decision_engine::{first_segment, first_segment_trimmed, RetrievalBundle};
use crate::live_state::LiveStateContext;
use crate::models::{ConfidenceAssessment, ConfidenceLevel, DecisionEnvelope, DecisionMode, DomainSpecialty, QueryAnalysis, RetrievalHit};
use crate::specialty_agent::{agent_normalize_spec, preferred_tools_for_message, preferred_tools_spec};
use crate::text::{
    chars_of, collapse_whitespace, collapse_ws, contains_any, contains_any_spec, contains_seq,
    is_ascii_alnum, is_ascii_alphanumeric, is_whitespace, is_ws, lowercase_chars, lowercase_of,
    member, owned, seq_contains, seq_prefix, seq_starts_with, starts_with, str_eq, string_from_chars,
    trim, trim_seq, views_of, contains, string_views,
};
use crate::tool_catalog::{tool_definition_exists, tool_names, ToolDefinition};

verus! {

// ---------------------------------------------------------------------------
// Query normalization
// ---------------------------------------------------------------------------

/// How the router folds one lowercased character: accented Latin letters to
/// their base letter, ASCII letters, digits, whitespace and `/` kept, any
/// other character to a space.
pub open spec fn router_fold(c: char) -> char {
    if c == 'á' || c == 'à' || c == 'ä' || c == 'â' || c == 'ã' || c == 'å' {
        'a'
    } else if c == 'é' || c == 'è' || c == 'ë' || c == 'ê' {
        'e'
    } else if c == 'í' || c == 'ì' || c == 'ï' || c == 'î' {
        'i'
    } else if c == 'ó' || c == 'ò' || c == 'ö' || c == 'ô' || c == 'õ' {
        'o'
    } else if c == 'ú' || c == 'ù' || c == 'ü' || c == 'û' {
        'u'
    } else if c == 'ñ' {
        'n'
    } else if c == 'ç' {
        'c'
    } else if is_ascii_alnum(c) || is_ws(c) || c == '/' {
        c
    } else {
        ' '
    }
}

/// A message lowercased, folded character by character, and with its
/// whitespace collapsed to single spaces.
pub open spec fn router_normalize_spec(s: Seq<char>) -> Seq<char> {
    router_fold_lowered(lowercase_of(s))
}

/// A lowercased message folded character by character, with its whitespace
/// collapsed to single spaces.
pub open spec fn router_fold_lowered(l: Seq<char>) -> Seq<char> {
    collapse_ws(l.map_values(|c: char| router_fold(c)))
}

fn router_fold_char(c: char) -> (r: char)
    ensures
        r == router_fold(c),
{
    if c == 'á' || c == 'à' || c == 'ä' || c == 'â' || c == 'ã' || c == 'å' {
        'a'
    } else if c == 'é' || c == 'è' || c == 'ë' || c == 'ê' {
        'e'
    } else if c == 'í' || c == 'ì' || c == 'ï' || c == 'î' {
        'i'
    } else if c == 'ó' || c == 'ò' || c == 'ö' || c == 'ô' || c == 'õ' {
        'o'
    } else if c == 'ú' || c == 'ù' || c == 'ü' || c == 'û' {
        'u'
    } else if c == 'ñ' {
        'n'
    } else if c == 'ç' {
        'c'
    } else if is_ascii_alphanumeric(c) || is_whitespace(c) || c == '/' {
        c
    } else {
        ' '
    }
}

/// Normalizes a user message for routing.
pub fn normalize_query_text(user_message: &str) -> (res: String)
    ensures
        res@ == router_normalize_spec(user_message@),
{
    let lowered = lowercase_chars(user_message);
    fold_lowered_query(&lowered)
}

/// Folds an already lowercased message for routing.
pub fn fold_lowered_query(lowered: &Vec<char>) -> (res: String)
    ensures
        res@ == router_fold_lowered(lowered@),
{
    let mut mapped: Vec<char> = Vec::new();
    let mut i: usize = 0;
    while i < lowered.len()
        invariant
            i <= lowered.len(),
            mapped@ == lowered@.take(i as int).map_values(|c: char| router_fold(c)),
        decreases lowered.len() - i,
    {
        mapped.push(router_fold_char(lowered[i]));
        assert(lowered@.take(i as int + 1).map_values(|c: char| router_fold(c))
            =~= lowered@.take(i as int).map_values(|c: char| router_fold(c)).push(router_fold(lowered@[i as int])));
        i += 1;
    }
    assert(lowered@.take(lowered.len() as int) =~= lowered@);
    let collapsed = collapse_whitespace(&mapped);
    string_from_chars(&collapsed)
}

/// Whether a message explicitly asks for a tool: it starts with `/tool` or
/// `/quick`, or mentions a quick check, `ejecuta` or `run `.
pub open spec fn explicit_spec(s: Seq<char>) -> bool {
    explicit_normalized(router_normalize_spec(s))
}

/// Whether a normalized message explicitly asks for a tool.
pub open spec fn explicit_normalized(t: Seq<char>) -> bool {
    seq_starts_with(t, "/tool"@) || seq_starts_with(t, "/quick"@) || seq_contains(t, "quick check"@)
        || seq_contains(t, "ejecuta"@) || seq_contains(t, "run "@)
}

/// Whether a message explicitly asks for a tool.
pub fn has_explicit_shortcut_intent(user_message: &str) -> (r: bool)
    ensures
        r == explicit_spec(user_message@),
{
    let text = chars_of(normalize_query_text(user_message).as_str());
    explicit_in_normalized(&text)
}

/// Whether a normalized message explicitly asks for a tool.
pub fn explicit_in_normalized(text: &Vec<char>) -> (r: bool)
    ensures
        r == explicit_normalized(text@),
{
    starts_with(text, "/tool") || starts_with(text, "/quick") || contains(text, "quick check")
        || contains(text, "ejecuta") || contains(text, "run ")
}

/// The phrases that only ask the assistant to answer `ok`.
pub open spec fn ok_phrases() -> Seq<Seq<char>> {
    seq!["ok"@, "responde ok"@, "responde solo ok"@, "responde solamente ok"@, "contesta ok"@, "contesta solo ok"@]
}

/// The canned answer of a message that only asks for an `ok`.
pub open spec fn fast_text_spec(s: Seq<char>) -> Option<Seq<char>> {
    fast_text_normalized(router_normalize_spec(s))
}

/// The canned answer of a normalized message that only asks for an `ok`.
pub open spec fn fast_text_normalized(t: Seq<char>) -> Option<Seq<char>> {
    if ok_phrases().contains(t) { Some("ok"@) } else { None }
}

/// Answers without any model a message that only asks for an `ok`.
pub fn detect_fast_text_response(user_message: &str) -> (res: Option<&'static str>)
    ensures
        res matches Some(r) ==> fast_text_spec(user_message@) == Some(r@),
        res is None ==> fast_text_spec(user_message@) is None,
{
    let normalized = normalize_query_text(user_message);
    fast_text_for_normalized(normalized.as_str())
}

/// Answers without any model a normalized message that only asks for an
/// `ok`.
pub fn fast_text_for_normalized(normalized: &str) -> (res: Option<&'static str>)
    ensures
        res matches Some(r) ==> fast_text_normalized(normalized@) == Some(r@),
        res is None ==> fast_text_normalized(normalized@) is None,
{
    let phrases: [&str; 6] = ["ok", "responde ok", "responde solo ok", "responde solamente ok", "contesta ok", "contesta solo ok"];
    assert(views_of(phrases@) =~= ok_phrases());
    if member(normalized, &phrases) {
        Some("ok")
    } else {
        None
    }
}

// ---------------------------------------------------------------------------
// Explicit shortcuts
// ---------------------------------------------------------------------------

/// The shortcut a normalized message asks for: the tool, its JSON
/// arguments and the prefixes of the answer on success and failure.
pub open spec fn shortcut_spec(t: Seq<char>, explicit: bool) -> Option<(Seq<char>, Seq<char>, Seq<char>, Seq<char>)> {
    if explicit && contains_any_spec(t, seq!["escritorio"@, "desktop"@]) && contains_any_spec(t, seq!["lista"@, "listar"@, "archivos"@]) {
        Some(("list_directory"@, "{\"path\":\"desktop\"}"@, "Archivos del escritorio:\n\n"@, "No se pudo listar el escritorio. "@))
    } else if explicit && contains_any_spec(t, seq!["tarjeta"@, "tarjetas"@, "adaptador"@, "adaptadores"@]) && contains_any_spec(t, seq!["red"@]) {
        Some(("get_network_adapters"@, "{}"@, "Tarjetas/adaptadores de red detectados:\n\n"@, "No se pudo obtener la configuracion de adaptadores de red. "@))
    } else if explicit && contains_any_spec(t, seq!["diagnostico de red"@, "conexion a internet"@, "conexion internet"@]) {
        Some(("run_network_diagnostic"@, "{}"@, "Diagnostico de red en tiempo real:\n\n"@, "No se pudo ejecutar el diagnostico de red. "@))
    } else if explicit && contains_any_spec(t, seq!["reporte tecnico"@, "reporte técnico"@, "genera un reporte"@]) {
        Some(("generate_support_report"@, "{}"@, "Reporte tecnico generado:\n\n"@, "No se pudo generar el reporte tecnico. "@))
    } else if explicit && contains_any_spec(t, seq!["procesos"@]) && contains_any_spec(t, seq!["consumen"@, "recursos"@, "activos"@]) {
        Some(("list_processes"@, "{\"limit\":15,\"sort_by\":\"memory\"}"@, "Procesos con mayor consumo:\n\n"@, "No se pudieron obtener los procesos. "@))
    } else if contains_any_spec(t, seq!["unidad"@, "unidades"@, "almacenamiento"@, "disco"@, "discos"@]) && contains_any_spec(t, seq!["cuanto"@, "cuantos"@, "tiene"@, "lista"@, "mostrar"@, "muestr"@]) {
        Some(("get_storage_summary"@, "{}"@, ""@, "No se pudo obtener informacion de almacenamiento. "@))
    } else if contains_any_spec(t, seq!["estado actual del equipo"@, "estado del equipo"@, "estado del sistema"@]) {
        Some(("get_system_info"@, "{}"@, "Estado actual del equipo:\n\n"@, "No se pudo obtener el estado actual del equipo. "@))
    } else if contains_any_spec(t, seq!["health"@, "salud completa"@, "salud del equipo"@, "salud del sistema"@, "health completo"@, "reporte de salud"@]) {
        Some(("health_summary"@, "{}"@, "Health completo del equipo:\n\n"@, "No se pudo obtener el health del equipo. "@))
    } else {
        None
    }
}

/// Detects a request that a local tool answers directly.
pub fn detect_local_shortcut(user_message: &str) -> (res: Option<(&'static str, &'static str, &'static str, &'static str)>)
    ensures
        res matches Some(r) ==> shortcut_spec(router_normalize_spec(user_message@), explicit_spec(user_message@)) == Some((r.0@, r.1@, r.2@, r.3@)),
        res is None ==> shortcut_spec(router_normalize_spec(user_message@), explicit_spec(user_message@)) is None,
{
    let text = chars_of(normalize_query_text(user_message).as_str());
    let explicit = explicit_in_normalized(&text);
    shortcut_for_normalized(&text, explicit)
}

/// The request a local tool answers directly, read from a normalized
/// message and whether it asks explicitly for a tool.
pub fn shortcut_for_normalized(text: &Vec<char>, explicit: bool) -> (res: Option<(&'static str, &'static str, &'static str, &'static str)>)
    ensures
        res matches Some(r) ==> shortcut_spec(text@, explicit) == Some((r.0@, r.1@, r.2@, r.3@)),
        res is None ==> shortcut_spec(text@, explicit) is None,
{
    if explicit && { let w1: [&str; 2] = ["escritorio", "desktop"]; assert(views_of(w1@) =~= seq!["escritorio"@, "desktop"@]); contains_any(text, &w1) } && { let w2: [&str; 3] = ["lista", "listar", "archivos"]; assert(views_of(w2@) =~= seq!["lista"@, "listar"@, "archivos"@]); contains_any(text, &w2) } {
        return Some(("list_directory", "{\"path\":\"desktop\"}", "Archivos del escritorio:\n\n", "No se pudo listar el escritorio. "));
    }
    if explicit && { let w3: [&str; 4] = ["tarjeta", "tarjetas", "adaptador", "adaptadores"]; assert(views_of(w3@) =~= seq!["tarjeta"@, "tarjetas"@, "adaptador"@, "adaptadores"@]); contains_any(text, &w3) } && { let w4: [&str; 1] = ["red"]; assert(views_of(w4@) =~= seq!["red"@]); contains_any(text, &w4) } {
        return Some(("get_network_adapters", "{}", "Tarjetas/adaptadores de red detectados:\n\n", "No se pudo obtener la configuracion de adaptadores de red. "));
    }
    if explicit && { let w5: [&str; 3] = ["diagnostico de red", "conexion a internet", "conexion internet"]; assert(views_of(w5@) =~= seq!["diagnostico de red"@, "conexion a internet"@, "conexion internet"@]); contains_any(text, &w5) } {
        return Some(("run_network_diagnostic", "{}", "Diagnostico de red en tiempo real:\n\n", "No se pudo ejecutar el diagnostico de red. "));
    }
    if explicit && { let w6: [&str; 3] = ["reporte tecnico", "reporte técnico", "genera un reporte"]; assert(views_of(w6@) =~= seq!["reporte tecnico"@, "reporte técnico"@, "genera un reporte"@]); contains_any(text, &w6) } {
        return Some(("generate_support_report", "{}", "Reporte tecnico generado:\n\n", "No se pudo generar el reporte tecnico. "));
    }
    if explicit && { let w7: [&str; 1] = ["procesos"]; assert(views_of(w7@) =~= seq!["procesos"@]); contains_any(text, &w7) } && { let w8: [&str; 3] = ["consumen", "recursos", "activos"]; assert(views_of(w8@) =~= seq!["consumen"@, "recursos"@, "activos"@]); contains_any(text, &w8) } {
        return Some(("list_processes", "{\"limit\":15,\"sort_by\":\"memory\"}", "Procesos con mayor consumo:\n\n", "No se pudieron obtener los procesos. "));
    }
    if { let w9: [&str; 5] = ["unidad", "unidades", "almacenamiento", "disco", "discos"]; assert(views_of(w9@) =~= seq!["unidad"@, "unidades"@, "almacenamiento"@, "disco"@, "discos"@]); contains_any(text, &w9) } && { let w10: [&str; 6] = ["cuanto", "cuantos", "tiene", "lista", "mostrar", "muestr"]; assert(views_of(w10@) =~= seq!["cuanto"@, "cuantos"@, "tiene"@, "lista"@, "mostrar"@, "muestr"@]); contains_any(text, &w10) } {
        return Some(("get_storage_summary", "{}", "", "No se pudo obtener informacion de almacenamiento. "));
    }
    if { let w11: [&str; 3] = ["estado actual del equipo", "estado del equipo", "estado del sistema"]; assert(views_of(w11@) =~= seq!["estado actual del equipo"@, "estado del equipo"@, "estado del sistema"@]); contains_any(text, &w11) } {
        return Some(("get_system_info", "{}", "Estado actual del equipo:\n\n", "No se pudo obtener el estado actual del equipo. "));
    }
    if { let w12: [&str; 6] = ["health", "salud completa", "salud del equipo", "salud del sistema", "health completo", "reporte de salud"]; assert(views_of(w12@) =~= seq!["health"@, "salud completa"@, "salud del equipo"@, "salud del sistema"@, "health completo"@, "reporte de salud"@]); contains_any(text, &w12) } {
        return Some(("health_summary", "{}", "Health completo del equipo:\n\n", "No se pudo obtener el health del equipo. "));
    }
    None
}

/// The tools that may answer a query directly, without the model: read-only
/// diagnostics and reports.
pub open spec fn safe_local_first_tools() -> Seq<Seq<char>> {
    seq!["get_system_info"@, "get_storage_summary"@, "list_processes"@, "run_network_diagnostic"@, "get_network_adapters"@, "get_local_ip"@, "get_default_gateway"@, "get_dns_servers"@, "get_wifi_info"@, "get_public_ip"@, "list_running_services"@, "generate_support_report"@, "health_overview"@, "health_summary"@, "scan_asset_inventory"@, "list_driver_issues"@, "search_missing_driver"@, "list_directory"@, "read_file"@, "run_kernel_slowpc_diagnostic"@, "run_kernel_network_playbook"@, "generate_kernelia_readiness_report"@, "generate_performance_report"@, "generate_reliability_report"@, "predict_operational_incidents"@, "explain_root_cause"@, "generate_autonomous_playbook"@, "get_enterprise_dashboard"@, "generate_advanced_reporting"@, "get_noc_global_status"@]
}

/// Whether a tool may answer a query directly.
pub fn is_safe_local_first_tool(tool_name: &str) -> (r: bool)
    ensures
        r == safe_local_first_tools().contains(tool_name@),
{
    let names: [&str; 30] = ["get_system_info", "get_storage_summary", "list_processes", "run_network_diagnostic", "get_network_adapters", "get_local_ip", "get_default_gateway", "get_dns_servers", "get_wifi_info", "get_public_ip", "list_running_services", "generate_support_report", "health_overview", "health_summary", "scan_asset_inventory", "list_driver_issues", "search_missing_driver", "list_directory", "read_file", "run_kernel_slowpc_diagnostic", "run_kernel_network_playbook", "generate_kernelia_readiness_report", "generate_performance_report", "generate_reliability_report", "predict_operational_incidents", "explain_root_cause", "generate_autonomous_playbook", "get_enterprise_dashboard", "generate_advanced_reporting", "get_noc_global_status"];
    assert(views_of(names@) =~= safe_local_first_tools());
    member(tool_name, &names)
}


// ---------------------------------------------------------------------------
// Routes
// ---------------------------------------------------------------------------

/// A direct answer by a local tool: the tool, its arguments as JSON text, and
/// the prefixes of the answer on success and on failure.
#[derive(Debug, Clone)]
pub struct LocalToolRoute {
    pub tool_name: String,
    pub args: String,
    pub ok_prefix: &'static str,
    pub err_prefix: &'static str,
}

/// A route as plain text: tool, arguments, success prefix, failure prefix.
pub open spec fn route_view(r: LocalToolRoute) -> (Seq<char>, Seq<char>, Seq<char>, Seq<char>) {
    (r.tool_name@, r.args@, r.ok_prefix@, r.err_prefix@)
}

/// An optional route as plain text.
pub open spec fn route_opt_view(o: Option<LocalToolRoute>) -> Option<(Seq<char>, Seq<char>, Seq<char>, Seq<char>)> {
    match o {
        Some(r) => Some(route_view(r)),
        None => None,
    }
}

/// The route of a tool by its name, as plain text.
pub open spec fn named_route(name: Seq<char>) -> Option<(Seq<char>, Seq<char>, Seq<char>, Seq<char>)> {
    match route_spec(name) {
        Some(t) => Some((name, t.0, t.1, t.2)),
        None => None,
    }
}

/// The direct route of a tool: its JSON arguments and the prefixes of the
/// answer on success and on failure; none for a tool without one.
pub open spec fn route_spec(name: Seq<char>) -> Option<(Seq<char>, Seq<char>, Seq<char>)> {
    if name == "get_system_info"@ {
        Some(("{}"@, "Estado actual del equipo:\n\n"@, "No se pudo obtener el estado actual del equipo. "@))
    } else if name == "get_storage_summary"@ {
        Some(("{}"@, "Resumen de almacenamiento:\n\n"@, "No se pudo obtener informacion de almacenamiento. "@))
    } else if name == "list_processes"@ {
        Some(("{\"limit\":15,\"sort_by\":\"memory\"}"@, "Procesos con mayor consumo:\n\n"@, "No se pudieron obtener los procesos. "@))
    } else if name == "run_network_diagnostic"@ {
        Some(("{}"@, "Diagnostico de red en tiempo real:\n\n"@, "No se pudo ejecutar el diagnostico de red. "@))
    } else if name == "get_network_adapters"@ {
        Some(("{}"@, "Tarjetas/adaptadores de red detectados:\n\n"@, "No se pudo obtener la configuracion de adaptadores de red. "@))
    } else if name == "get_local_ip"@ {
        Some(("{}"@, "IP local detectada:\n\n"@, "No se pudo obtener la IP local. "@))
    } else if name == "get_default_gateway"@ {
        Some(("{}"@, "Gateway por defecto:\n\n"@, "No se pudo obtener el gateway por defecto. "@))
    } else if name == "get_dns_servers"@ {
        Some(("{}"@, "Servidores DNS detectados:\n\n"@, "No se pudo obtener la lista de DNS. "@))
    } else if name == "get_wifi_info"@ {
        Some(("{}"@, "Estado de Wi-Fi:\n\n"@, "No se pudo obtener informacion de Wi-Fi. "@))
    } else if name == "get_public_ip"@ {
        Some(("{}"@, "IP publica actual:\n\n"@, "No se pudo obtener la IP publica. "@))
    } else if name == "get_windows_updates_status"@ {
        Some(("{}"@, "Estado de Windows Update:\n\n"@, "No se pudo obtener el estado de Windows Update. "@))
    } else if name == "check_app_updates"@ {
        Some(("{}"@, "Actualizaciones de aplicaciones:\n\n"@, "No se pudieron listar las actualizaciones de aplicaciones. "@))
    } else if name == "list_running_services"@ {
        Some(("{}"@, "Servicios en ejecucion:\n\n"@, "No se pudieron obtener los servicios en ejecucion. "@))
    } else if name == "generate_support_report"@ {
        Some(("{}"@, "Reporte tecnico generado:\n\n"@, "No se pudo generar el reporte tecnico. "@))
    } else if name == "health_overview"@ {
        Some(("{}"@, "Health general del equipo:\n\n"@, "No se pudo obtener el health general del equipo. "@))
    } else if name == "health_summary"@ {
        Some(("{}"@, "Health completo del equipo:\n\n"@, "No se pudo obtener el health del equipo. "@))
    } else if name == "scan_asset_inventory"@ {
        Some(("{}"@, "Inventario de activos:\n\n"@, "No se pudo generar el inventario de activos. "@))
    } else if name == "list_driver_issues"@ {
        Some(("{}"@, "Controladores con problema:\n\n"@, "No se pudieron obtener los problemas de controladores. "@))
    } else if name == "search_missing_driver"@ {
        Some(("{}"@, "Busqueda de controlador faltante:\n\n"@, "No se pudo buscar el controlador faltante. "@))
    } else if name == "list_directory"@ {
        Some(("{\"path\":\"desktop\"}"@, "Archivos del escritorio:\n\n"@, "No se pudo listar el escritorio. "@))
    } else if name == "read_file"@ {
        Some(("{\"path\":\"\"}"@, "Contenido del archivo:\n\n"@, "No se pudo leer el archivo. "@))
    } else if name == "run_kernel_slowpc_diagnostic"@ {
        Some(("{}"@, "Diagnostico KernelIA para equipo lento:\n\n"@, "No se pudo ejecutar el diagnostico de equipo lento. "@))
    } else if name == "run_kernel_network_playbook"@ {
        Some(("{}"@, "Playbook KernelIA de red:\n\n"@, "No se pudo ejecutar el playbook de red. "@))
    } else if name == "generate_kernelia_readiness_report"@ {
        Some(("{}"@, "Reporte de readiness KernelIA:\n\n"@, "No se pudo generar el reporte de readiness. "@))
    } else if name == "generate_performance_report"@ {
        Some(("{}"@, "Reporte de rendimiento:\n\n"@, "No se pudo generar el reporte de rendimiento. "@))
    } else if name == "generate_reliability_report"@ {
        Some(("{}"@, "Reporte de fiabilidad:\n\n"@, "No se pudo generar el reporte de fiabilidad. "@))
    } else if name == "predict_operational_incidents"@ {
        Some(("{}"@, "Prediccion de incidentes operacionales:\n\n"@, "No se pudo calcular la prediccion de incidentes. "@))
    } else if name == "explain_root_cause"@ {
        Some(("{}"@, "Causa raiz probable:\n\n"@, "No se pudo explicar la causa raiz. "@))
    } else if name == "generate_autonomous_playbook"@ {
        Some(("{}"@, "Playbook autonomo generado:\n\n"@, "No se pudo generar el playbook autonomo. "@))
    } else if name == "get_enterprise_dashboard"@ {
        Some(("{}"@, "Dashboard enterprise:\n\n"@, "No se pudo obtener el dashboard enterprise. "@))
    } else if name == "generate_advanced_reporting"@ {
        Some(("{}"@, "Reporte avanzado generado:\n\n"@, "No se pudo generar el reporte avanzado. "@))
    } else if name == "get_noc_global_status"@ {
        Some(("{}"@, "Estado NOC global:\n\n"@, "No se pudo obtener el estado NOC global. "@))
    } else {
        None
    }
}

/// The direct route of a tool, if it has one.
pub fn local_route_for_tool(tool_name: &str) -> (res: Option<LocalToolRoute>)
    ensures
        route_opt_view(res) == named_route(tool_name@),
{
    let (args, ok_prefix, err_prefix) = 
        if str_eq(tool_name, "get_system_info") {
            ("{}", "Estado actual del equipo:\n\n", "No se pudo obtener el estado actual del equipo. ")
        } else if str_eq(tool_name, "get_storage_summary") {
            ("{}", "Resumen de almacenamiento:\n\n", "No se pudo obtener informacion de almacenamiento. ")
        } else if str_eq(tool_name, "list_processes") {
            ("{\"limit\":15,\"sort_by\":\"memory\"}", "Procesos con mayor consumo:\n\n", "No se pudieron obtener los procesos. ")
        } else if str_eq(tool_name, "run_network_diagnostic") {
            ("{}", "Diagnostico de red en tiempo real:\n\n", "No se pudo ejecutar el diagnostico de red. ")
        } else if str_eq(tool_name, "get_network_adapters") {
            ("{}", "Tarjetas/adaptadores de red detectados:\n\n", "No se pudo obtener la configuracion de adaptadores de red. ")
        } else if str_eq(tool_name, "get_local_ip") {
            ("{}", "IP local detectada:\n\n", "No se pudo obtener la IP local. ")
        } else if str_eq(tool_name, "get_default_gateway") {
            ("{}", "Gateway por defecto:\n\n", "No se pudo obtener el gateway por defecto. ")
        } else if str_eq(tool_name, "get_dns_servers") {
            ("{}", "Servidores DNS detectados:\n\n", "No se pudo obtener la lista de DNS. ")
        } else if str_eq(tool_name, "get_wifi_info") {
            ("{}", "Estado de Wi-Fi:\n\n", "No se pudo obtener informacion de Wi-Fi. ")
        } else if str_eq(tool_name, "get_public_ip") {
            ("{}", "IP publica actual:\n\n", "No se pudo obtener la IP publica. ")
        } else if str_eq(tool_name, "get_windows_updates_status") {
            ("{}", "Estado de Windows Update:\n\n", "No se pudo obtener el estado de Windows Update. ")
        } else if str_eq(tool_name, "check_app_updates") {
            ("{}", "Actualizaciones de aplicaciones:\n\n", "No se pudieron listar las actualizaciones de aplicaciones. ")
        } else if str_eq(tool_name, "list_running_services") {
            ("{}", "Servicios en ejecucion:\n\n", "No se pudieron obtener los servicios en ejecucion. ")
        } else if str_eq(tool_name, "generate_support_report") {
            ("{}", "Reporte tecnico generado:\n\n", "No se pudo generar el reporte tecnico. ")
        } else if str_eq(tool_name, "health_overview") {
            ("{}", "Health general del equipo:\n\n", "No se pudo obtener el health general del equipo. ")
        } else if str_eq(tool_name, "health_summary") {
            ("{}", "Health completo del equipo:\n\n", "No se pudo obtener el health del equipo. ")
        } else if str_eq(tool_name, "scan_asset_inventory") {
            ("{}", "Inventario de activos:\n\n", "No se pudo generar el inventario de activos. ")
        } else if str_eq(tool_name, "list_driver_issues") {
            ("{}", "Controladores con problema:\n\n", "No se pudieron obtener los problemas de controladores. ")
        } else if str_eq(tool_name, "search_missing_driver") {
            ("{}", "Busqueda de controlador faltante:\n\n", "No se pudo buscar el controlador faltante. ")
        } else if str_eq(tool_name, "list_directory") {
            ("{\"path\":\"desktop\"}", "Archivos del escritorio:\n\n", "No se pudo listar el escritorio. ")
        } else if str_eq(tool_name, "read_file") {
            ("{\"path\":\"\"}", "Contenido del archivo:\n\n", "No se pudo leer el archivo. ")
        } else if str_eq(tool_name, "run_kernel_slowpc_diagnostic") {
            ("{}", "Diagnostico KernelIA para equipo lento:\n\n", "No se pudo ejecutar el diagnostico de equipo lento. ")
        } else if str_eq(tool_name, "run_kernel_network_playbook") {
            ("{}", "Playbook KernelIA de red:\n\n", "No se pudo ejecutar el playbook de red. ")
        } else if str_eq(tool_name, "generate_kernelia_readiness_report") {
            ("{}", "Reporte de readiness KernelIA:\n\n", "No se pudo generar el reporte de readiness. ")
        } else if str_eq(tool_name, "generate_performance_report") {
            ("{}", "Reporte de rendimiento:\n\n", "No se pudo generar el reporte de rendimiento. ")
        } else if str_eq(tool_name, "generate_reliability_report") {
            ("{}", "Reporte de fiabilidad:\n\n", "No se pudo generar el reporte de fiabilidad. ")
        } else if str_eq(tool_name, "predict_operational_incidents") {
            ("{}", "Prediccion de incidentes operacionales:\n\n", "No se pudo calcular la prediccion de incidentes. ")
        } else if str_eq(tool_name, "explain_root_cause") {
            ("{}", "Causa raiz probable:\n\n", "No se pudo explicar la causa raiz. ")
        } else if str_eq(tool_name, "generate_autonomous_playbook") {
            ("{}", "Playbook autonomo generado:\n\n", "No se pudo generar el playbook autonomo. ")
        } else if str_eq(tool_name, "get_enterprise_dashboard") {
            ("{}", "Dashboard enterprise:\n\n", "No se pudo obtener el dashboard enterprise. ")
        } else if str_eq(tool_name, "generate_advanced_reporting") {
            ("{}", "Reporte avanzado generado:\n\n", "No se pudo generar el reporte avanzado. ")
        } else if str_eq(tool_name, "get_noc_global_status") {
            ("{}", "Estado NOC global:\n\n", "No se pudo obtener el estado NOC global. ")
        } else {
            return None;
        };
    Some(LocalToolRoute { tool_name: owned(tool_name), args: owned(args), ok_prefix, err_prefix })
}

/// The tool a keyword route picks for a normalized message: network,
/// processes, services, updates, drivers, files, storage listings, then
/// health, by the first family whose words occur; health for system-like
/// specialties; none otherwise.
pub open spec fn keyword_tool_spec(specialty: DomainSpecialty, t: Seq<char>) -> Option<Seq<char>> {
    if specialty == DomainSpecialty::Network || contains_any_spec(t, seq!["internet"@, "red"@, "dns"@, "gateway"@, "wifi"@, "latencia"@]) {
        Some("run_network_diagnostic"@)
    } else if contains_any_spec(t, seq!["proceso"@, "procesos"@, "cpu"@, "memoria"@, "recursos"@, "consumen"@, "consume"@]) {
        Some("list_processes"@)
    } else if contains_any_spec(t, seq!["spooler"@, "servicio"@, "services"@, "service"@]) {
        Some("list_running_services"@)
    } else if contains_any_spec(t, seq!["windows update"@, "estado de actualizaciones"@, "estado de windows update"@, "actualizaciones de windows"@, "lista de actualizaciones"@, "ver actualizaciones"@]) {
        Some("get_windows_updates_status"@)
    } else if contains_any_spec(t, seq!["actualizaciones de apps"@, "actualizaciones de aplicaciones"@, "actualizaciones disponibles"@, "winget upgrade"@]) {
        Some("check_app_updates"@)
    } else if contains_any_spec(t, seq!["driver"@, "controlador"@, "codigo 43"@, "code 43"@, "gpu"@, "audio"@, "usb"@]) {
        Some("list_driver_issues"@)
    } else if contains_any_spec(t, seq!["escritorio"@, "desktop"@, "archivo"@, "carpeta"@, "ruta"@]) {
        Some("list_directory"@)
    } else if contains_any_spec(t, seq!["almacenamiento"@, "disco"@, "discos"@, "ssd"@, "hdd"@, "volumen"@]) && contains_any_spec(t, seq!["cuanto"@, "cuantos"@, "cuantas"@, "listar"@, "lista"@, "mostrar"@, "muestr"@, "tiene"@]) {
        Some("get_storage_summary"@)
    } else if contains_any_spec(t, seq!["health"@, "salud"@, "estado"@, "sistema"@, "equipo"@, "pc"@, "lento"@]) {
        if contains_any_spec(t, seq!["disco"@, "almacenamiento"@, "volumen"@]) { Some("get_storage_summary"@) } else { Some("health_summary"@) }
    } else if specialty == DomainSpecialty::System || specialty == DomainSpecialty::Telemetry
        || specialty == DomainSpecialty::Maintenance || specialty == DomainSpecialty::Software {
        Some("health_summary"@)
    } else {
        None
    }
}

fn keyword_tool(specialty: DomainSpecialty, text: &Vec<char>) -> (res: Option<&'static str>)
    ensures
        res matches Some(n) ==> keyword_tool_spec(specialty, text@) == Some(n@),
        res is None ==> keyword_tool_spec(specialty, text@) is None,
{
    if specialty == DomainSpecialty::Network || { let w13: [&str; 6] = ["internet", "red", "dns", "gateway", "wifi", "latencia"]; assert(views_of(w13@) =~= seq!["internet"@, "red"@, "dns"@, "gateway"@, "wifi"@, "latencia"@]); contains_any(text, &w13) } {
        return Some("run_network_diagnostic");
    }
    if { let w14: [&str; 7] = ["proceso", "procesos", "cpu", "memoria", "recursos", "consumen", "consume"]; assert(views_of(w14@) =~= seq!["proceso"@, "procesos"@, "cpu"@, "memoria"@, "recursos"@, "consumen"@, "consume"@]); contains_any(text, &w14) } {
        return Some("list_processes");
    }
    if { let w15: [&str; 4] = ["spooler", "servicio", "services", "service"]; assert(views_of(w15@) =~= seq!["spooler"@, "servicio"@, "services"@, "service"@]); contains_any(text, &w15) } {
        return Some("list_running_services");
    }
    if { let w16: [&str; 6] = ["windows update", "estado de actualizaciones", "estado de windows update", "actualizaciones de windows", "lista de actualizaciones", "ver actualizaciones"]; assert(views_of(w16@) =~= seq!["windows update"@, "estado de actualizaciones"@, "estado de windows update"@, "actualizaciones de windows"@, "lista de actualizaciones"@, "ver actualizaciones"@]); contains_any(text, &w16) } {
        return Some("get_windows_updates_status");
    }
    if { let w17: [&str; 4] = ["actualizaciones de apps", "actualizaciones de aplicaciones", "actualizaciones disponibles", "winget upgrade"]; assert(views_of(w17@) =~= seq!["actualizaciones de apps"@, "actualizaciones de aplicaciones"@, "actualizaciones disponibles"@, "winget upgrade"@]); contains_any(text, &w17) } {
        return Some("check_app_updates");
    }
    if { let w18: [&str; 7] = ["driver", "controlador", "codigo 43", "code 43", "gpu", "audio", "usb"]; assert(views_of(w18@) =~= seq!["driver"@, "controlador"@, "codigo 43"@, "code 43"@, "gpu"@, "audio"@, "usb"@]); contains_any(text, &w18) } {
        return Some("list_driver_issues");
    }
    if { let w19: [&str; 5] = ["escritorio", "desktop", "archivo", "carpeta", "ruta"]; assert(views_of(w19@) =~= seq!["escritorio"@, "desktop"@, "archivo"@, "carpeta"@, "ruta"@]); contains_any(text, &w19) } {
        return Some("list_directory");
    }
    if { let w20: [&str; 6] = ["almacenamiento", "disco", "discos", "ssd", "hdd", "volumen"]; assert(views_of(w20@) =~= seq!["almacenamiento"@, "disco"@, "discos"@, "ssd"@, "hdd"@, "volumen"@]); contains_any(text, &w20) } && { let w21: [&str; 8] = ["cuanto", "cuantos", "cuantas", "listar", "lista", "mostrar", "muestr", "tiene"]; assert(views_of(w21@) =~= seq!["cuanto"@, "cuantos"@, "cuantas"@, "listar"@, "lista"@, "mostrar"@, "muestr"@, "tiene"@]); contains_any(text, &w21) } {
        return Some("get_storage_summary");
    }
    if { let w22: [&str; 7] = ["health", "salud", "estado", "sistema", "equipo", "pc", "lento"]; assert(views_of(w22@) =~= seq!["health"@, "salud"@, "estado"@, "sistema"@, "equipo"@, "pc"@, "lento"@]); contains_any(text, &w22) } {
        if { let w23: [&str; 3] = ["disco", "almacenamiento", "volumen"]; assert(views_of(w23@) =~= seq!["disco"@, "almacenamiento"@, "volumen"@]); contains_any(text, &w23) } {
            return Some("get_storage_summary");
        }
        return Some("health_summary");
    }
    if specialty == DomainSpecialty::System || specialty == DomainSpecialty::Telemetry
        || specialty == DomainSpecialty::Maintenance || specialty == DomainSpecialty::Software {
        return Some("health_summary");
    }
    None
}

/// The route that the keywords of a normalized message pick.
pub open spec fn keyword_route_spec(specialty: DomainSpecialty, t: Seq<char>) -> Option<(Seq<char>, Seq<char>, Seq<char>, Seq<char>)> {
    match keyword_tool_spec(specialty, t) {
        Some(n) => named_route(n),
        None => None,
    }
}

/// The route that the keywords of a normalized message and the specialty of
/// its analysis pick.
pub fn keyword_route_for_analysis(analysis: &QueryAnalysis, normalized: &str) -> (res: Option<LocalToolRoute>)
    ensures
        route_opt_view(res) == keyword_route_spec(analysis.specialty, normalized@),
{
    let text = chars_of(normalized);
    match keyword_tool(analysis.specialty, &text) {
        Some(name) => local_route_for_tool(name),
        None => None,
    }
}

// ---------------------------------------------------------------------------
// Routes backed by retrieval
// ---------------------------------------------------------------------------

/// A request as governed by the retrieval pipeline: its analysis, the
/// retrieved evidence, the confidence assessment, the decision taken on it,
/// the live state read for it and the context given to the model.
#[derive(Debug, Clone)]
pub struct GovernedContext {
    pub analysis: QueryAnalysis,
    pub retrieval: RetrievalBundle,
    pub confidence: ConfidenceAssessment,
    pub decision: DecisionEnvelope,
    pub live_state: LiveStateContext,
    pub prompt_context: String,
}

/// A retrieved command supports a tool: its trimmed title is the tool, or
/// starts with the tool and ` -> `, or its lowercased content names the tool.
pub open spec fn hit_supports_tool(hit: RetrievalHit, name: Seq<char>) -> bool {
    let title = trim_seq(hit.title@);
    title == name || seq_starts_with(title, name + " -> "@) || seq_contains(lowercase_of(hit.content@), name)
}

/// Some retrieved command supports the tool.
pub open spec fn hits_support_tool(hits: Seq<RetrievalHit>, name: Seq<char>) -> bool {
    exists|i: int| 0 <= i < hits.len() && #[trigger] hit_supports_tool(hits[i], name)
}

fn hit_supports(hit: &RetrievalHit, name: &Vec<char>, pattern: &Vec<char>) -> (r: bool)
    requires
        pattern@ == name@ + " -> "@,
    ensures
        r == hit_supports_tool(*hit, name@),
{
    let title = trim(hit.title.as_str());
    if title.len() == name.len() && seq_prefix(&title, name) {
        assert(title@ =~= name@);
        return true;
    }
    if seq_prefix(&title, pattern) {
        return true;
    }
    proof {
        if title@ == name@ {
            assert(title@.subrange(0, name@.len() as int) =~= title@);
        }
    }
    let content = lowercase_chars(hit.content.as_str());
    contains_seq(&content, name)
}

/// Whether some retrieved command supports the tool.
pub fn command_hit_supports_tool(retrieval: &RetrievalBundle, tool_name: &str) -> (r: bool)
    ensures
        r == hits_support_tool(retrieval.command_hits@, tool_name@),
{
    let name = chars_of(tool_name);
    let mut pattern = chars_of(tool_name);
    pattern.push(' ');
    pattern.push('-');
    pattern.push('>');
    pattern.push(' ');
    proof {
        reveal_strlit(" -> ");
        assert(pattern@ =~= name@ + " -> "@);
    }
    let mut k: usize = 0;
    while k < retrieval.command_hits.len()
        invariant
            k <= retrieval.command_hits.len(),
            name@ == tool_name@,
            pattern@ == name@ + " -> "@,
            forall|j: int| 0 <= j < k ==> !#[trigger] hit_supports_tool(retrieval.command_hits@[j], tool_name@),
        decreases retrieval.command_hits.len() - k,
    {
        if hit_supports(&retrieval.command_hits[k], &name, &pattern) {
            assert(hit_supports_tool(retrieval.command_hits@[k as int], tool_name@));
            return true;
        }
        k += 1;
    }
    false
}

/// The trimmed first segments of the titles of retrieved commands.
pub open spec fn hit_first_segments(hits: Seq<RetrievalHit>) -> Seq<Seq<char>> {
    hits.map_values(|h: RetrievalHit| trim_seq(first_segment(h.title@)))
}

/// The tools a governed request may be routed to, in order: those preferred
/// for its normalized text, then those that retrieved commands name.
pub open spec fn route_candidates(g: GovernedContext) -> Seq<Seq<char>> {
    preferred_tools_spec(agent_normalize_spec(g.analysis.normalized_text@)) + hit_first_segments(g.retrieval.command_hits@)
}

/// A candidate is accepted when it is safe to run directly, the catalog
/// defines it, and a retrieved command supports it or the decision allows it.
pub open spec fn route_candidate_ok(g: GovernedContext, catalog: Seq<Seq<char>>, name: Seq<char>) -> bool {
    &&& safe_local_first_tools().contains(name)
    &&& catalog.contains(name)
    &&& (hits_support_tool(g.retrieval.command_hits@, name) || string_views(g.decision.allowed_tools@).contains(name))
}

/// The first accepted candidate at or after position `i`.
pub open spec fn first_ok_candidate(g: GovernedContext, catalog: Seq<Seq<char>>, cands: Seq<Seq<char>>, i: int) -> Option<Seq<char>>
    decreases cands.len() - i,
{
    if i < 0 || i >= cands.len() {
        None
    } else if route_candidate_ok(g, catalog, cands[i]) {
        Some(cands[i])
    } else {
        first_ok_candidate(g, catalog, cands, i + 1)
    }
}

/// The route of the first accepted candidate of a governed request.
pub open spec fn retrieval_route_spec(g: GovernedContext, catalog: Seq<Seq<char>>) -> Option<(Seq<char>, Seq<char>, Seq<char>, Seq<char>)> {
    match first_ok_candidate(g, catalog, route_candidates(g), 0) {
        Some(n) => named_route(n),
        None => None,
    }
}

fn allowed_by(decision: &DecisionEnvelope, name: &str) -> (r: bool)
    ensures
        r == string_views(decision.allowed_tools@).contains(name@),
{
    let mut k: usize = 0;
    while k < decision.allowed_tools.len()
        invariant
            k <= decision.allowed_tools.len(),
            forall|j: int| 0 <= j < k ==> string_views(decision.allowed_tools@)[j] != name@,
        decreases decision.allowed_tools.len() - k,
    {
        if str_eq(decision.allowed_tools[k].as_str(), name) {
            assert(string_views(decision.allowed_tools@)[k as int] == name@);
            return true;
        }
        k += 1;
    }
    false
}

fn candidate_ok(governed: &GovernedContext, catalog: &[ToolDefinition], name: &str) -> (r: bool)
    ensures
        r == route_candidate_ok(*governed, tool_names(catalog@), name@),
{
    is_safe_local_first_tool(name) && tool_definition_exists(name, catalog)
        && (command_hit_supports_tool(&governed.retrieval, name) || allowed_by(&governed.decision, name))
}

/// The route of the first candidate tool that is safe, defined in the
/// catalog, and backed by retrieval or allowed by the decision.
pub fn retrieval_route_for_governed(governed: &GovernedContext, catalog: &[ToolDefinition]) -> (res: Option<LocalToolRoute>)
    ensures
        route_opt_view(res) == retrieval_route_spec(*governed, tool_names(catalog@)),
{
    let ghost g = *governed;
    let ghost cat = tool_names(catalog@);
    let ghost cands = route_candidates(g);
    let preferred = preferred_tools_for_message(governed.analysis.normalized_text.as_str());
    let hits = &governed.retrieval.command_hits;
    let ghost segs = hit_first_segments(hits@);
    proof {
        assert(cands =~= views_of(preferred@) + segs);
    }
    let mut i: usize = 0;
    while i < preferred.len()
        invariant
            i <= preferred.len(),
            g == *governed,
            cat == tool_names(catalog@),
            cands == views_of(preferred@) + segs,
            cands == route_candidates(g),
            segs == hit_first_segments(hits@),
            hits@ == governed.retrieval.command_hits@,
            first_ok_candidate(g, cat, cands, 0) == first_ok_candidate(g, cat, cands, i as int),
        decreases preferred.len() - i,
    {
        let name = preferred[i];
        assert(cands[i as int] == name@);
        if candidate_ok(governed, catalog, name) {
            assert(first_ok_candidate(g, cat, cands, i as int) == Some(name@));
            return local_route_for_tool(name);
        }
        i += 1;
    }
    let base = preferred.len();
    let mut k: usize = 0;
    while k < hits.len()
        invariant
            k <= hits.len(),
            base == preferred.len(),
            g == *governed,
            cat == tool_names(catalog@),
            cands == views_of(preferred@) + segs,
            cands == route_candidates(g),
            segs == hit_first_segments(hits@),
            hits@ == governed.retrieval.command_hits@,
            first_ok_candidate(g, cat, cands, 0) == first_ok_candidate(g, cat, cands, base + k),
        decreases hits.len() - k,
    {
        let seg = first_segment_trimmed(hits[k].title.as_str());
        let name = string_from_chars(&seg);
        assert(cands[base + k] == name@);
        if candidate_ok(governed, catalog, name.as_str()) {
            assert(first_ok_candidate(g, cat, cands, base + k) == Some(name@));
            return local_route_for_tool(name.as_str());
        }
        k += 1;
    }
    None
}

// ---------------------------------------------------------------------------
// Local-first resolution
// ---------------------------------------------------------------------------

/// A decision leaves room for a direct answer: it asks for no clarification
/// and no human, neither clarifies nor denies, and its confidence is not low.
pub open spec fn local_first_open(d: DecisionEnvelope) -> bool {
    &&& !d.requires_clarification
    &&& !d.requires_human
    &&& d.decision_mode != DecisionMode::Clarify
    &&& d.decision_mode != DecisionMode::Deny
    &&& d.confidence_level != ConfidenceLevel::Low
}

/// The direct route of a message under a governed context: none when the
/// decision leaves no room; else an explicit shortcut, else a keyword route,
/// else a route backed by retrieval.
pub open spec fn resolve_spec(msg: Seq<char>, g: GovernedContext, catalog: Seq<Seq<char>>) -> Option<(Seq<char>, Seq<char>, Seq<char>, Seq<char>)> {
    if !local_first_open(g.decision) {
        None
    } else if shortcut_spec(router_normalize_spec(msg), explicit_spec(msg)) is Some {
        shortcut_spec(router_normalize_spec(msg), explicit_spec(msg))
    } else if keyword_route_spec(g.analysis.specialty, router_normalize_spec(msg)) is Some {
        keyword_route_spec(g.analysis.specialty, router_normalize_spec(msg))
    } else {
        retrieval_route_spec(g, catalog)
    }
}

/// Picks the local tool that answers a message directly, if any.
pub fn resolve_local_first_route(user_message: &str, governed: &GovernedContext, catalog: &[ToolDefinition]) -> (res: Option<LocalToolRoute>)
    ensures
        route_opt_view(res) == resolve_spec(user_message@, *governed, tool_names(catalog@)),
{
    let d = &governed.decision;
    if d.requires_clarification || d.requires_human || d.decision_mode == DecisionMode::Clarify
        || d.decision_mode == DecisionMode::Deny || d.confidence_level == ConfidenceLevel::Low {
        return None;
    }
    let normalized = normalize_query_text(user_message);
    if let Some((tool_name, args, ok_prefix, err_prefix)) = detect_local_shortcut(user_message) {
        return Some(LocalToolRoute { tool_name: owned(tool_name), args: owned(args), ok_prefix, err_prefix });
    }
    if let Some(route) = keyword_route_for_analysis(&governed.analysis, normalized.as_str()) {
        return Some(route);
    }
    retrieval_route_for_governed(governed, catalog)
}

/// What the assistant does with a message before any model is asked: the
/// fast answer, an explicit shortcut, a local tool the governed context
/// points to, or the exchange with the model.
#[derive(Debug, Clone)]
pub enum AnswerPlan {
    Fast(String),
    Shortcut(LocalToolRoute),
    LocalFirst(LocalToolRoute),
    Model,
}

/// The order in which a message is dispatched: the fast answer first, then
/// an explicit shortcut, then, for a governed message, the local-first route;
/// otherwise the model.
pub open spec fn answer_plan_spec(msg: Seq<char>, governed: Option<GovernedContext>, catalog: Seq<Seq<char>>, r: AnswerPlan) -> bool {
    match fast_text_spec(msg) {
        Some(t) => r matches AnswerPlan::Fast(x) && x@ == t,
        None => match shortcut_spec(router_normalize_spec(msg), explicit_spec(msg)) {
            Some(v) => r matches AnswerPlan::Shortcut(route) && route_view(route) == v,
            None => match governed {
                Some(g) => match resolve_spec(msg, g, catalog) {
                    Some(v) => r matches AnswerPlan::LocalFirst(route) && route_view(route) == v,
                    None => r is Model,
                },
                None => r is Model,
            },
        },
    }
}

/// Decides how a message is answered, before any model is asked.
pub fn plan_answer(user_message: &str, governed: Option<&GovernedContext>, catalog: &[ToolDefinition]) -> (r: AnswerPlan)
    ensures
        answer_plan_spec(user_message@, match governed { Some(g) => Some(*g), None => None }, tool_names(catalog@), r),
{
    if let Some(text) = detect_fast_text_response(user_message) {
        return AnswerPlan::Fast(owned(text));
    }
    if let Some((tool_name, args, ok_prefix, err_prefix)) = detect_local_shortcut(user_message) {
        return AnswerPlan::Shortcut(LocalToolRoute { tool_name: owned(tool_name), args: owned(args), ok_prefix, err_prefix });
    }
    match governed {
        Some(g) => match resolve_local_first_route(user_message, g, catalog) {
            Some(route) => AnswerPlan::LocalFirst(route),
            None => AnswerPlan::Model,
        },
        None => AnswerPlan::Model,
    }
}

// ---------------------------------------------------------------------------
// Laws
// ---------------------------------------------------------------------------

/// Every tool that may answer directly has a direct route, so a route backed
/// by retrieval exists exactly when some candidate is accepted.
pub proof fn lemma_safe_tools_have_routes(g: GovernedContext, catalog: Seq<Seq<char>>)
    ensures
        forall|n: Seq<char>| safe_local_first_tools().contains(n) ==> #[trigger] route_spec(n) is Some,
        retrieval_route_spec(g, catalog) is Some <==> first_ok_candidate(g, catalog, route_candidates(g), 0) is Some,
{
    assert forall|n: Seq<char>| safe_local_first_tools().contains(n) implies #[trigger] route_spec(n) is Some by {
        let k = choose|k: int| 0 <= k < safe_local_first_tools().len() && safe_local_first_tools()[k] == n;
    }
    lemma_first_ok_is_safe(g, catalog, route_candidates(g), 0);
}

/// Whether a text ends with `suffix`.
pub open spec fn ends_with_text(t: Seq<char>, suffix: Seq<char>) -> bool {
    t.len() >= suffix.len() && t.skip(t.len() - suffix.len()) == suffix
}

/// A tool has a direct route exactly when it may answer directly, or when it
/// reports Windows or application updates.
pub proof fn lemma_routed_tools(n: Seq<char>)
    ensures
        route_spec(n) is Some <==> (safe_local_first_tools().contains(n) || n == "get_windows_updates_status"@
            || n == "check_app_updates"@),
{
    if safe_local_first_tools().contains(n) {
        let k = choose|k: int| 0 <= k < safe_local_first_tools().len() && safe_local_first_tools()[k] == n;
    }
    if route_spec(n) is Some {
        if n == "get_system_info"@ {
            assert(safe_local_first_tools()[0] == n);
        }
        if n == "get_storage_summary"@ {
            assert(safe_local_first_tools()[1] == n);
        }
        if n == "list_processes"@ {
            assert(safe_local_first_tools()[2] == n);
        }
        if n == "run_network_diagnostic"@ {
            assert(safe_local_first_tools()[3] == n);
        }
        if n == "get_network_adapters"@ {
            assert(safe_local_first_tools()[4] == n);
        }
        if n == "get_local_ip"@ {
            assert(safe_local_first_tools()[5] == n);
        }
        if n == "get_default_gateway"@ {
            assert(safe_local_first_tools()[6] == n);
        }
        if n == "get_dns_servers"@ {
            assert(safe_local_first_tools()[7] == n);
        }
        if n == "get_wifi_info"@ {
            assert(safe_local_first_tools()[8] == n);
        }
        if n == "get_public_ip"@ {
            assert(safe_local_first_tools()[9] == n);
        }
        if n == "list_running_services"@ {
            assert(safe_local_first_tools()[10] == n);
        }
        if n == "generate_support_report"@ {
            assert(safe_local_first_tools()[11] == n);
        }
        if n == "health_overview"@ {
            assert(safe_local_first_tools()[12] == n);
        }
        if n == "health_summary"@ {
            assert(safe_local_first_tools()[13] == n);
        }
        if n == "scan_asset_inventory"@ {
            assert(safe_local_first_tools()[14] == n);
        }
        if n == "list_driver_issues"@ {
            assert(safe_local_first_tools()[15] == n);
        }
        if n == "search_missing_driver"@ {
            assert(safe_local_first_tools()[16] == n);
        }
        if n == "list_directory"@ {
            assert(safe_local_first_tools()[17] == n);
        }
        if n == "read_file"@ {
            assert(safe_local_first_tools()[18] == n);
        }
        if n == "run_kernel_slowpc_diagnostic"@ {
            assert(safe_local_first_tools()[19] == n);
        }
        if n == "run_kernel_network_playbook"@ {
            assert(safe_local_first_tools()[20] == n);
        }
        if n == "generate_kernelia_readiness_report"@ {
            assert(safe_local_first_tools()[21] == n);
        }
        if n == "generate_performance_report"@ {
            assert(safe_local_first_tools()[22] == n);
        }
        if n == "generate_reliability_report"@ {
            assert(safe_local_first_tools()[23] == n);
        }
        if n == "predict_operational_incidents"@ {
            assert(safe_local_first_tools()[24] == n);
        }
        if n == "explain_root_cause"@ {
            assert(safe_local_first_tools()[25] == n);
        }
        if n == "generate_autonomous_playbook"@ {
            assert(safe_local_first_tools()[26] == n);
        }
        if n == "get_enterprise_dashboard"@ {
            assert(safe_local_first_tools()[27] == n);
        }
        if n == "generate_advanced_reporting"@ {
            assert(safe_local_first_tools()[28] == n);
        }
        if n == "get_noc_global_status"@ {
            assert(safe_local_first_tools()[29] == n);
        }
    }
}

/// Every direct answer opens with a heading that ends in a colon and a
/// blank line, and every failure with a sentence that ends in `. `.
pub proof fn lemma_route_prefix_endings(n: Seq<char>)
    ensures
        route_spec(n) matches Some(t) ==> ends_with_text(t.1, ":\n\n"@) && ends_with_text(t.2, ". "@),
{
    reveal_strlit(":\n\n");
    reveal_strlit(". ");
    reveal_strlit("Actualizaciones de aplicaciones:\n\n");
    assert("Actualizaciones de aplicaciones:\n\n"@.skip(31) =~= ":\n\n"@);
    reveal_strlit("Archivos del escritorio:\n\n");
    assert("Archivos del escritorio:\n\n"@.skip(23) =~= ":\n\n"@);
    reveal_strlit("Busqueda de controlador faltante:\n\n");
    assert("Busqueda de controlador faltante:\n\n"@.skip(32) =~= ":\n\n"@);
    reveal_strlit("Causa raiz probable:\n\n");
    assert("Causa raiz probable:\n\n"@.skip(19) =~= ":\n\n"@);
    reveal_strlit("Contenido del archivo:\n\n");
    assert("Contenido del archivo:\n\n"@.skip(21) =~= ":\n\n"@);
    reveal_strlit("Controladores con problema:\n\n");
    assert("Controladores con problema:\n\n"@.skip(26) =~= ":\n\n"@);
    reveal_strlit("Dashboard enterprise:\n\n");
    assert("Dashboard enterprise:\n\n"@.skip(20) =~= ":\n\n"@);
    reveal_strlit("Diagnostico KernelIA para equipo lento:\n\n");
    assert("Diagnostico KernelIA para equipo lento:\n\n"@.skip(38) =~= ":\n\n"@);
    reveal_strlit("Diagnostico de red en tiempo real:\n\n");
    assert("Diagnostico de red en tiempo real:\n\n"@.skip(33) =~= ":\n\n"@);
    reveal_strlit("Estado NOC global:\n\n");
    assert("Estado NOC global:\n\n"@.skip(17) =~= ":\n\n"@);
    reveal_strlit("Estado actual del equipo:\n\n");
    assert("Estado actual del equipo:\n\n"@.skip(24) =~= ":\n\n"@);
    reveal_strlit("Estado de Wi-Fi:\n\n");
    assert("Estado de Wi-Fi:\n\n"@.skip(15) =~= ":\n\n"@);
    reveal_strlit("Estado de Windows Update:\n\n");
    assert("Estado de Windows Update:\n\n"@.skip(24) =~= ":\n\n"@);
    reveal_strlit("Gateway por defecto:\n\n");
    assert("Gateway por defecto:\n\n"@.skip(19) =~= ":\n\n"@);
    reveal_strlit("Health completo del equipo:\n\n");
    assert("Health completo del equipo:\n\n"@.skip(26) =~= ":\n\n"@);
    reveal_strlit("Health general del equipo:\n\n");
    assert("Health general del equipo:\n\n"@.skip(25) =~= ":\n\n"@);
    reveal_strlit("IP local detectada:\n\n");
    assert("IP local detectada:\n\n"@.skip(18) =~= ":\n\n"@);
    reveal_strlit("IP publica actual:\n\n");
    assert("IP publica actual:\n\n"@.skip(17) =~= ":\n\n"@);
    reveal_strlit("Inventario de activos:\n\n");
    assert("Inventario de activos:\n\n"@.skip(21) =~= ":\n\n"@);
    reveal_strlit("Playbook KernelIA de red:\n\n");
    assert("Playbook KernelIA de red:\n\n"@.skip(24) =~= ":\n\n"@);
    reveal_strlit("Playbook autonomo generado:\n\n");
    assert("Playbook autonomo generado:\n\n"@.skip(26) =~= ":\n\n"@);
    reveal_strlit("Prediccion de incidentes operacionales:\n\n");
    assert("Prediccion de incidentes operacionales:\n\n"@.skip(38) =~= ":\n\n"@);
    reveal_strlit("Procesos con mayor consumo:\n\n");
    assert("Procesos con mayor consumo:\n\n"@.skip(26) =~= ":\n\n"@);
    reveal_strlit("Reporte avanzado generado:\n\n");
    assert("Reporte avanzado generado:\n\n"@.skip(25) =~= ":\n\n"@);
    reveal_strlit("Reporte de fiabilidad:\n\n");
    assert("Reporte de fiabilidad:\n\n"@.skip(21) =~= ":\n\n"@);
    reveal_strlit("Reporte de readiness KernelIA:\n\n");
    assert("Reporte de readiness KernelIA:\n\n"@.skip(29) =~= ":\n\n"@);
    reveal_strlit("Reporte de rendimiento:\n\n");
    assert("Reporte de rendimiento:\n\n"@.skip(22) =~= ":\n\n"@);
    reveal_strlit("Reporte tecnico generado:\n\n");
    assert("Reporte tecnico generado:\n\n"@.skip(24) =~= ":\n\n"@);
    reveal_strlit("Resumen de almacenamiento:\n\n");
    assert("Resumen de almacenamiento:\n\n"@.skip(25) =~= ":\n\n"@);
    reveal_strlit("Servicios en ejecucion:\n\n");
    assert("Servicios en ejecucion:\n\n"@.skip(22) =~= ":\n\n"@);
    reveal_strlit("Servidores DNS detectados:\n\n");
    assert("Servidores DNS detectados:\n\n"@.skip(25) =~= ":\n\n"@);
    reveal_strlit("Tarjetas/adaptadores de red detectados:\n\n");
    assert("Tarjetas/adaptadores de red detectados:\n\n"@.skip(38) =~= ":\n\n"@);
    reveal_strlit("No se pudieron listar las actualizaciones de aplicaciones. ");
    assert("No se pudieron listar las actualizaciones de aplicaciones. "@.skip(57) =~= ". "@);
    reveal_strlit("No se pudieron obtener los problemas de controladores. ");
    assert("No se pudieron obtener los problemas de controladores. "@.skip(53) =~= ". "@);
    reveal_strlit("No se pudieron obtener los procesos. ");
    assert("No se pudieron obtener los procesos. "@.skip(35) =~= ". "@);
    reveal_strlit("No se pudieron obtener los servicios en ejecucion. ");
    assert("No se pudieron obtener los servicios en ejecucion. "@.skip(49) =~= ". "@);
    reveal_strlit("No se pudo buscar el controlador faltante. ");
    assert("No se pudo buscar el controlador faltante. "@.skip(41) =~= ". "@);
    reveal_strlit("No se pudo calcular la prediccion de incidentes. ");
    assert("No se pudo calcular la prediccion de incidentes. "@.skip(47) =~= ". "@);
    reveal_strlit("No se pudo ejecutar el diagnostico de equipo lento. ");
    assert("No se pudo ejecutar el diagnostico de equipo lento. "@.skip(50) =~= ". "@);
    reveal_strlit("No se pudo ejecutar el diagnostico de red. ");
    assert("No se pudo ejecutar el diagnostico de red. "@.skip(41) =~= ". "@);
    reveal_strlit("No se pudo ejecutar el playbook de red. ");
    assert("No se pudo ejecutar el playbook de red. "@.skip(38) =~= ". "@);
    reveal_strlit("No se pudo explicar la causa raiz. ");
    assert("No se pudo explicar la causa raiz. "@.skip(33) =~= ". "@);
    reveal_strlit("No se pudo generar el inventario de activos. ");
    assert("No se pudo generar el inventario de activos. "@.skip(43) =~= ". "@);
    reveal_strlit("No se pudo generar el playbook autonomo. ");
    assert("No se pudo generar el playbook autonomo. "@.skip(39) =~= ". "@);
    reveal_strlit("No se pudo generar el reporte avanzado. ");
    assert("No se pudo generar el reporte avanzado. "@.skip(38) =~= ". "@);
    reveal_strlit("No se pudo generar el reporte de fiabilidad. ");
    assert("No se pudo generar el reporte de fiabilidad. "@.skip(43) =~= ". "@);
    reveal_strlit("No se pudo generar el reporte de readiness. ");
    assert("No se pudo generar el reporte de readiness. "@.skip(42) =~= ". "@);
    reveal_strlit("No se pudo generar el reporte de rendimiento. ");
    assert("No se pudo generar el reporte de rendimiento. "@.skip(44) =~= ". "@);
    reveal_strlit("No se pudo generar el reporte tecnico. ");
    assert("No se pudo generar el reporte tecnico. "@.skip(37) =~= ". "@);
    reveal_strlit("No se pudo leer el archivo. ");
    assert("No se pudo leer el archivo. "@.skip(26) =~= ". "@);
    reveal_strlit("No se pudo listar el escritorio. ");
    assert("No se pudo listar el escritorio. "@.skip(31) =~= ". "@);
    reveal_strlit("No se pudo obtener el dashboard enterprise. ");
    assert("No se pudo obtener el dashboard enterprise. "@.skip(42) =~= ". "@);
    reveal_strlit("No se pudo obtener el estado NOC global. ");
    assert("No se pudo obtener el estado NOC global. "@.skip(39) =~= ". "@);
    reveal_strlit("No se pudo obtener el estado actual del equipo. ");
    assert("No se pudo obtener el estado actual del equipo. "@.skip(46) =~= ". "@);
    reveal_strlit("No se pudo obtener el estado de Windows Update. ");
    assert("No se pudo obtener el estado de Windows Update. "@.skip(46) =~= ". "@);
    reveal_strlit("No se pudo obtener el gateway por defecto. ");
    assert("No se pudo obtener el gateway por defecto. "@.skip(41) =~= ". "@);
    reveal_strlit("No se pudo obtener el health del equipo. ");
    assert("No se pudo obtener el health del equipo. "@.skip(39) =~= ". "@);
    reveal_strlit("No se pudo obtener el health general del equipo. ");
    assert("No se pudo obtener el health general del equipo. "@.skip(47) =~= ". "@);
    reveal_strlit("No se pudo obtener informacion de Wi-Fi. ");
    assert("No se pudo obtener informacion de Wi-Fi. "@.skip(39) =~= ". "@);
    reveal_strlit("No se pudo obtener informacion de almacenamiento. ");
    assert("No se pudo obtener informacion de almacenamiento. "@.skip(48) =~= ". "@);
    reveal_strlit("No se pudo obtener la IP local. ");
    assert("No se pudo obtener la IP local. "@.skip(30) =~= ". "@);
    reveal_strlit("No se pudo obtener la IP publica. ");
    assert("No se pudo obtener la IP publica. "@.skip(32) =~= ". "@);
    reveal_strlit("No se pudo obtener la configuracion de adaptadores de red. ");
    assert("No se pudo obtener la configuracion de adaptadores de red. "@.skip(57) =~= ". "@);
    reveal_strlit("No se pudo obtener la lista de DNS. ");
    assert("No se pudo obtener la lista de DNS. "@.skip(34) =~= ". "@);
}

/// The arguments of a direct route: the fifteen processes that use the most
/// memory, the desktop for a listing, an empty path for a file to read, and
/// none for every other tool.
pub proof fn lemma_route_arguments(n: Seq<char>)
    ensures
        route_spec(n) matches Some(t) ==> t.0 == (if n == "list_processes"@ {
            "{\"limit\":15,\"sort_by\":\"memory\"}"@
        } else if n == "list_directory"@ {
            "{\"path\":\"desktop\"}"@
        } else if n == "read_file"@ {
            "{\"path\":\"\"}"@
        } else {
            "{}"@
        }),
{
    reveal_strlit("get_system_info");
    reveal_strlit("get_storage_summary");
    reveal_strlit("list_processes");
    reveal_strlit("run_network_diagnostic");
    reveal_strlit("get_network_adapters");
    reveal_strlit("get_local_ip");
    reveal_strlit("get_default_gateway");
    reveal_strlit("get_dns_servers");
    reveal_strlit("get_wifi_info");
    reveal_strlit("get_public_ip");
    reveal_strlit("get_windows_updates_status");
    reveal_strlit("check_app_updates");
    reveal_strlit("list_running_services");
    reveal_strlit("generate_support_report");
    reveal_strlit("health_overview");
    reveal_strlit("health_summary");
    reveal_strlit("scan_asset_inventory");
    reveal_strlit("list_driver_issues");
    reveal_strlit("search_missing_driver");
    reveal_strlit("list_directory");
    reveal_strlit("read_file");
    reveal_strlit("run_kernel_slowpc_diagnostic");
    reveal_strlit("run_kernel_network_playbook");
    reveal_strlit("generate_kernelia_readiness_report");
    reveal_strlit("generate_performance_report");
    reveal_strlit("generate_reliability_report");
    reveal_strlit("predict_operational_incidents");
    reveal_strlit("explain_root_cause");
    reveal_strlit("generate_autonomous_playbook");
    reveal_strlit("get_enterprise_dashboard");
    reveal_strlit("generate_advanced_reporting");
    reveal_strlit("get_noc_global_status");
    assert("get_system_info"@.len() != "list_processes"@.len());
    assert("get_storage_summary"@.len() != "list_processes"@.len());
    assert("run_network_diagnostic"@.len() != "list_processes"@.len());
    assert("get_network_adapters"@.len() != "list_processes"@.len());
    assert("get_local_ip"@.len() != "list_processes"@.len());
    assert("get_default_gateway"@.len() != "list_processes"@.len());
    assert("get_dns_servers"@.len() != "list_processes"@.len());
    assert("get_wifi_info"@.len() != "list_processes"@.len());
    assert("get_public_ip"@.len() != "list_processes"@.len());
    assert("get_windows_updates_status"@.len() != "list_processes"@.len());
    assert("check_app_updates"@.len() != "list_processes"@.len());
    assert("list_running_services"@.len() != "list_processes"@.len());
    assert("generate_support_report"@.len() != "list_processes"@.len());
    assert("health_overview"@.len() != "list_processes"@.len());
    assert("health_summary"@[0] != "list_processes"@[0]);
    assert("scan_asset_inventory"@.len() != "list_processes"@.len());
    assert("list_driver_issues"@.len() != "list_processes"@.len());
    assert("search_missing_driver"@.len() != "list_processes"@.len());
    assert("list_directory"@[5] != "list_processes"@[5]);
    assert("read_file"@.len() != "list_processes"@.len());
    assert("run_kernel_slowpc_diagnostic"@.len() != "list_processes"@.len());
    assert("run_kernel_network_playbook"@.len() != "list_processes"@.len());
    assert("generate_kernelia_readiness_report"@.len() != "list_processes"@.len());
    assert("generate_performance_report"@.len() != "list_processes"@.len());
    assert("generate_reliability_report"@.len() != "list_processes"@.len());
    assert("predict_operational_incidents"@.len() != "list_processes"@.len());
    assert("explain_root_cause"@.len() != "list_processes"@.len());
    assert("generate_autonomous_playbook"@.len() != "list_processes"@.len());
    assert("get_enterprise_dashboard"@.len() != "list_processes"@.len());
    assert("generate_advanced_reporting"@.len() != "list_processes"@.len());
    assert("get_noc_global_status"@.len() != "list_processes"@.len());
    assert("get_system_info"@.len() != "list_directory"@.len());
    assert("get_storage_summary"@.len() != "list_directory"@.len());
    assert("list_processes"@[5] != "list_directory"@[5]);
    assert("run_network_diagnostic"@.len() != "list_directory"@.len());
    assert("get_network_adapters"@.len() != "list_directory"@.len());
    assert("get_local_ip"@.len() != "list_directory"@.len());
    assert("get_default_gateway"@.len() != "list_directory"@.len());
    assert("get_dns_servers"@.len() != "list_directory"@.len());
    assert("get_wifi_info"@.len() != "list_directory"@.len());
    assert("get_public_ip"@.len() != "list_directory"@.len());
    assert("get_windows_updates_status"@.len() != "list_directory"@.len());
    assert("check_app_updates"@.len() != "list_directory"@.len());
    assert("list_running_services"@.len() != "list_directory"@.len());
    assert("generate_support_report"@.len() != "list_directory"@.len());
    assert("health_overview"@.len() != "list_directory"@.len());
    assert("health_summary"@[0] != "list_directory"@[0]);
    assert("scan_asset_inventory"@.len() != "list_directory"@.len());
    assert("list_driver_issues"@.len() != "list_directory"@.len());
    assert("search_missing_driver"@.len() != "list_directory"@.len());
    assert("read_file"@.len() != "list_directory"@.len());
    assert("run_kernel_slowpc_diagnostic"@.len() != "list_directory"@.len());
    assert("run_kernel_network_playbook"@.len() != "list_directory"@.len());
    assert("generate_kernelia_readiness_report"@.len() != "list_directory"@.len());
    assert("generate_performance_report"@.len() != "list_directory"@.len());
    assert("generate_reliability_report"@.len() != "list_directory"@.len());
    assert("predict_operational_incidents"@.len() != "list_directory"@.len());
    assert("explain_root_cause"@.len() != "list_directory"@.len());
    assert("generate_autonomous_playbook"@.len() != "list_directory"@.len());
    assert("get_enterprise_dashboard"@.len() != "list_directory"@.len());
    assert("generate_advanced_reporting"@.len() != "list_directory"@.len());
    assert("get_noc_global_status"@.len() != "list_directory"@.len());
    assert("get_system_info"@.len() != "read_file"@.len());
    assert("get_storage_summary"@.len() != "read_file"@.len());
    assert("list_processes"@.len() != "read_file"@.len());
    assert("run_network_diagnostic"@.len() != "read_file"@.len());
    assert("get_network_adapters"@.len() != "read_file"@.len());
    assert("get_local_ip"@.len() != "read_file"@.len());
    assert("get_default_gateway"@.len() != "read_file"@.len());
    assert("get_dns_servers"@.len() != "read_file"@.len());
    assert("get_wifi_info"@.len() != "read_file"@.len());
    assert("get_public_ip"@.len() != "read_file"@.len());
    assert("get_windows_updates_status"@.len() != "read_file"@.len());
    assert("check_app_updates"@.len() != "read_file"@.len());
    assert("list_running_services"@.len() != "read_file"@.len());
    assert("generate_support_report"@.len() != "read_file"@.len());
    assert("health_overview"@.len() != "read_file"@.len());
    assert("health_summary"@.len() != "read_file"@.len());
    assert("scan_asset_inventory"@.len() != "read_file"@.len());
    assert("list_driver_issues"@.len() != "read_file"@.len());
    assert("search_missing_driver"@.len() != "read_file"@.len());
    assert("list_directory"@.len() != "read_file"@.len());
    assert("run_kernel_slowpc_diagnostic"@.len() != "read_file"@.len());
    assert("run_kernel_network_playbook"@.len() != "read_file"@.len());
    assert("generate_kernelia_readiness_report"@.len() != "read_file"@.len());
    assert("generate_performance_report"@.len() != "read_file"@.len());
    assert("generate_reliability_report"@.len() != "read_file"@.len());
    assert("predict_operational_incidents"@.len() != "read_file"@.len());
    assert("explain_root_cause"@.len() != "read_file"@.len());
    assert("generate_autonomous_playbook"@.len() != "read_file"@.len());
    assert("get_enterprise_dashboard"@.len() != "read_file"@.len());
    assert("generate_advanced_reporting"@.len() != "read_file"@.len());
    assert("get_noc_global_status"@.len() != "read_file"@.len());
}

/// What `local_route_for_tool` gives, taken whole: a route exactly for the
/// tools that may answer directly and the two update reports; the route
/// names the tool, its success prefix ends in a colon and a blank line, its
/// failure prefix in `. `, and its arguments are those of
/// `lemma_route_arguments`.
pub proof fn lemma_local_route_table(n: Seq<char>)
    ensures
        named_route(n) is Some <==> (safe_local_first_tools().contains(n) || n == "get_windows_updates_status"@
            || n == "check_app_updates"@),
        named_route(n) matches Some(x) ==> {
            &&& x.0 == n
            &&& ends_with_text(x.2, ":\n\n"@)
            &&& ends_with_text(x.3, ". "@)
            &&& x.1 == (if n == "list_processes"@ {
                "{\"limit\":15,\"sort_by\":\"memory\"}"@
            } else if n == "list_directory"@ {
                "{\"path\":\"desktop\"}"@
            } else if n == "read_file"@ {
                "{\"path\":\"\"}"@
            } else {
                "{}"@
            })
        },
{
    lemma_routed_tools(n);
    lemma_route_prefix_endings(n);
    lemma_route_arguments(n);
}

/// An accepted candidate is always a tool that may answer directly.
pub proof fn lemma_first_ok_is_safe(g: GovernedContext, catalog: Seq<Seq<char>>, cands: Seq<Seq<char>>, i: int)
    ensures
        first_ok_candidate(g, catalog, cands, i) matches Some(n) ==> safe_local_first_tools().contains(n)
            && catalog.contains(n) && cands.contains(n),
    decreases cands.len() - i,
{
    if 0 <= i < cands.len() && !route_candidate_ok(g, catalog, cands[i]) {
        lemma_first_ok_is_safe(g, catalog, cands, i + 1);
    }
}

/// No message is answered directly when the decision asks for clarification
/// or a human, clarifies or denies, or has low confidence.
pub proof fn lemma_gated_decisions_route_nowhere(msg: Seq<char>, g: GovernedContext, catalog: Seq<Seq<char>>)
    requires
        !local_first_open(g.decision),
    ensures
        resolve_spec(msg, g, catalog) is None,
{
}

} // verus!
