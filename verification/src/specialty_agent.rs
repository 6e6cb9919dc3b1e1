//! Specialist agents: the profile (mission, contract, evidence, tools) of the
//! agent that handles each specialty, and tool preferences by keyword.

use vstd::prelude::*;
use crate::models::DomainSpecialty;
use crate::text::{
    chars_of, collapse_whitespace, collapse_ws, contains_any, contains_any_spec, is_ascii_alnum,
    is_ascii_alphanumeric, is_ascii_whitespace, is_ascii_ws, lowercase_chars, lowercase_of,
    string_from_chars, views_of,
};

verus! {

/// The agent that handles a specialty.
#[derive(Debug, Clone)]
pub struct SpecialtyAgentProfile {
    pub specialty: DomainSpecialty,
    pub name: &'static str,
    pub mission: &'static str,
    pub response_contract: &'static str,
    pub required_evidence: &'static [&'static str],
    pub preferred_tools: &'static [&'static str],
    pub avoid_behaviors: &'static [&'static str],
}

/// The textual content of a profile.
pub struct ProfileText {
    pub name: Seq<char>,
    pub mission: Seq<char>,
    pub response_contract: Seq<char>,
    pub required_evidence: Seq<Seq<char>>,
    pub preferred_tools: Seq<Seq<char>>,
    pub avoid_behaviors: Seq<Seq<char>>,
}

pub open spec fn profile_text(p: SpecialtyAgentProfile) -> ProfileText {
    ProfileText {
        name: p.name@,
        mission: p.mission@,
        response_contract: p.response_contract@,
        required_evidence: views_of(p.required_evidence@),
        preferred_tools: views_of(p.preferred_tools@),
        avoid_behaviors: views_of(p.avoid_behaviors@),
    }
}

/// The profile of the agent that handles a specialty, as text: name,
/// mission, response contract, required evidence, preferred tools and
/// behaviors to avoid.
pub open spec fn profile_spec(specialty: DomainSpecialty) -> ProfileText {
    match specialty {
        DomainSpecialty::Network => ProfileText {
            name: "NetworkAgent"@,
            mission: "Diagnosticar conectividad, DNS, gateway, latencia y configuracion de red."@,
            response_contract: "Devuelve: estado de red, evidencia, causa probable, accion recomendada y si requiere escalado."@,
            required_evidence: seq!["run_network_diagnostic"@, "get_network_adapters"@, "get_local_ip"@, "get_default_gateway"@, "get_dns_servers"@],
            preferred_tools: seq!["run_network_diagnostic"@, "get_network_adapters"@, "get_local_ip"@, "get_default_gateway"@, "get_dns_servers"@, "dns_lookup"@, "ping_host"@, "traceroute_host"@],
            avoid_behaviors: seq!["no inventar estado de internet"@, "no asumir DNS sin diagnostico"@, "no recomendar cambios destructivos"@],
        },
        DomainSpecialty::Processes => ProfileText {
            name: "ProcessAgent"@,
            mission: "Detectar procesos que consumen CPU, RAM o bloquean el sistema."@,
            response_contract: "Devuelve: top procesos, recurso dominante, riesgo y accion segura."@,
            required_evidence: seq!["list_processes"@, "get_cpu_usage"@, "get_memory_usage"@],
            preferred_tools: seq!["list_processes"@, "get_top_processes"@, "find_high_cpu_processes"@, "find_high_memory_processes"@, "get_process_detail"@, "get_cpu_usage"@, "get_memory_usage"@],
            avoid_behaviors: seq!["no diagnosticar sin lista de procesos"@, "no sugerir kill_process salvo escalado"@],
        },
        DomainSpecialty::Services => ProfileText {
            name: "ServicesAgent"@,
            mission: "Verificar servicios de Windows, cola de impresion, arranque y estado operativo."@,
            response_contract: "Devuelve: servicio afectado, estado, evidencia y accion recomendada."@,
            required_evidence: seq!["list_running_services"@, "get_service_status"@, "restart_service"@],
            preferred_tools: seq!["list_running_services"@, "list_services"@, "get_service_status"@, "restart_service"@, "start_service"@, "stop_service"@],
            avoid_behaviors: seq!["no confundir servicio con proceso"@, "no reiniciar sin evidencia"@],
        },
        DomainSpecialty::Performance => ProfileText {
            name: "PerformanceAgent"@,
            mission: "Analizar CPU, RAM, disco, latencia y degradacion del rendimiento."@,
            response_contract: "Devuelve: mediciones, cuello de botella, tendencia y accion concreta."@,
            required_evidence: seq!["get_system_info"@, "get_storage_summary"@, "list_processes"@],
            preferred_tools: seq!["get_system_info"@, "get_storage_summary"@, "list_processes"@, "get_cpu_usage"@, "get_memory_usage"@, "get_disk_usage"@, "detect_performance_anomalies"@],
            avoid_behaviors: seq!["no generalizar sin metricas"@, "no usar lenguaje vago"@],
        },
        DomainSpecialty::Security | DomainSpecialty::SensitiveOps => ProfileText {
            name: "SecurityAgent"@,
            mission: "Evaluar riesgo, incidentes, cambios seguros y cumplimiento de guardrails."@,
            response_contract: "Devuelve: riesgo, evidencia, si requiere escalado y accion segura."@,
            required_evidence: seq!["health_summary"@, "verify_go_live_controls"@, "get_audit_logs"@],
            preferred_tools: seq!["health_summary"@, "health_overview"@, "get_audit_logs"@, "verify_go_live_controls"@, "assess_go_live_readiness"@, "validate_kernel_guardrails"@],
            avoid_behaviors: seq!["no ejecutar comandos destructivos"@, "no asumir seguridad sin logs"@, "no ocultar riesgo alto"@],
        },
        DomainSpecialty::Filesystem => ProfileText {
            name: "FilesystemAgent"@,
            mission: "Evaluar almacenamiento, rutas, permisos y estructura de archivos."@,
            response_contract: "Devuelve: ruta afectada, evidencia y accion no destructiva."@,
            required_evidence: seq!["get_system_info"@, "get_storage_summary"@, "list_directory"@],
            preferred_tools: seq!["list_directory"@, "read_file"@, "get_system_info"@, "get_storage_summary"@],
            avoid_behaviors: seq!["no borrar ni reescribir archivos sin permiso"@, "no adivinar rutas"@],
        },
        DomainSpecialty::Drivers => ProfileText {
            name: "DriversAgent"@,
            mission: "Detectar controladores con fallo, codigo 43 y estado de hardware."@,
            response_contract: "Devuelve: dispositivo o driver, codigo de error, evidencia y paso siguiente."@,
            required_evidence: seq!["list_driver_issues"@, "search_missing_driver"@],
            preferred_tools: seq!["list_driver_issues"@, "update_problem_drivers"@, "search_missing_driver"@],
            avoid_behaviors: seq!["no inferir hardware sin lectura real"@],
        },
        DomainSpecialty::System | DomainSpecialty::Telemetry | DomainSpecialty::Maintenance | DomainSpecialty::Software => ProfileText {
            name: "SystemAgent"@,
            mission: "Consolidar estado del equipo, salud, inventario y mantenimiento seguro."@,
            response_contract: "Devuelve: estado global, evidencia, riesgo y accion recomendada."@,
            required_evidence: seq!["get_system_info"@, "health_summary"@, "scan_asset_inventory"@],
            preferred_tools: seq!["get_system_info"@, "get_storage_summary"@, "health_summary"@, "health_overview"@, "scan_asset_inventory"@, "generate_operational_documentation"@],
            avoid_behaviors: seq!["no responder con vaguedades"@, "no omitir metricas clave"@],
        },
        _ => ProfileText {
            name: "GeneralAgent"@,
            mission: "Responder solo con evidencia cuando la especialidad no esta clara."@,
            response_contract: "Devuelve: resumen breve, evidencia disponible y si hace falta clarificar."@,
            required_evidence: seq!["get_system_info"@],
            preferred_tools: seq!["get_system_info"@, "run_network_diagnostic"@, "health_summary"@],
            avoid_behaviors: seq!["no inventar una especialidad"@, "no suponer una accion sin evidencia"@],
        },
    }
}

/// Builds the agent profile of a specialty.
pub fn build_specialty_agent_profile(specialty: &DomainSpecialty) -> (res: SpecialtyAgentProfile)
    ensures
        res.specialty == *specialty,
        profile_text(res) == profile_spec(*specialty),
{
    let res = match specialty {
        DomainSpecialty::Network => SpecialtyAgentProfile {
            specialty: *specialty,
            name: "NetworkAgent",
            mission: "Diagnosticar conectividad, DNS, gateway, latencia y configuracion de red.",
            response_contract: "Devuelve: estado de red, evidencia, causa probable, accion recomendada y si requiere escalado.",
            required_evidence: &["run_network_diagnostic", "get_network_adapters", "get_local_ip", "get_default_gateway", "get_dns_servers"],
            preferred_tools: &["run_network_diagnostic", "get_network_adapters", "get_local_ip", "get_default_gateway", "get_dns_servers", "dns_lookup", "ping_host", "traceroute_host"],
            avoid_behaviors: &["no inventar estado de internet", "no asumir DNS sin diagnostico", "no recomendar cambios destructivos"],
        },
        DomainSpecialty::Processes => SpecialtyAgentProfile {
            specialty: *specialty,
            name: "ProcessAgent",
            mission: "Detectar procesos que consumen CPU, RAM o bloquean el sistema.",
            response_contract: "Devuelve: top procesos, recurso dominante, riesgo y accion segura.",
            required_evidence: &["list_processes", "get_cpu_usage", "get_memory_usage"],
            preferred_tools: &["list_processes", "get_top_processes", "find_high_cpu_processes", "find_high_memory_processes", "get_process_detail", "get_cpu_usage", "get_memory_usage"],
            avoid_behaviors: &["no diagnosticar sin lista de procesos", "no sugerir kill_process salvo escalado"],
        },
        DomainSpecialty::Services => SpecialtyAgentProfile {
            specialty: *specialty,
            name: "ServicesAgent",
            mission: "Verificar servicios de Windows, cola de impresion, arranque y estado operativo.",
            response_contract: "Devuelve: servicio afectado, estado, evidencia y accion recomendada.",
            required_evidence: &["list_running_services", "get_service_status", "restart_service"],
            preferred_tools: &["list_running_services", "list_services", "get_service_status", "restart_service", "start_service", "stop_service"],
            avoid_behaviors: &["no confundir servicio con proceso", "no reiniciar sin evidencia"],
        },
        DomainSpecialty::Performance => SpecialtyAgentProfile {
            specialty: *specialty,
            name: "PerformanceAgent",
            mission: "Analizar CPU, RAM, disco, latencia y degradacion del rendimiento.",
            response_contract: "Devuelve: mediciones, cuello de botella, tendencia y accion concreta.",
            required_evidence: &["get_system_info", "get_storage_summary", "list_processes"],
            preferred_tools: &["get_system_info", "get_storage_summary", "list_processes", "get_cpu_usage", "get_memory_usage", "get_disk_usage", "detect_performance_anomalies"],
            avoid_behaviors: &["no generalizar sin metricas", "no usar lenguaje vago"],
        },
        DomainSpecialty::Security | DomainSpecialty::SensitiveOps => SpecialtyAgentProfile {
            specialty: *specialty,
            name: "SecurityAgent",
            mission: "Evaluar riesgo, incidentes, cambios seguros y cumplimiento de guardrails.",
            response_contract: "Devuelve: riesgo, evidencia, si requiere escalado y accion segura.",
            required_evidence: &["health_summary", "verify_go_live_controls", "get_audit_logs"],
            preferred_tools: &["health_summary", "health_overview", "get_audit_logs", "verify_go_live_controls", "assess_go_live_readiness", "validate_kernel_guardrails"],
            avoid_behaviors: &["no ejecutar comandos destructivos", "no asumir seguridad sin logs", "no ocultar riesgo alto"],
        },
        DomainSpecialty::Filesystem => SpecialtyAgentProfile {
            specialty: *specialty,
            name: "FilesystemAgent",
            mission: "Evaluar almacenamiento, rutas, permisos y estructura de archivos.",
            response_contract: "Devuelve: ruta afectada, evidencia y accion no destructiva.",
            required_evidence: &["get_system_info", "get_storage_summary", "list_directory"],
            preferred_tools: &["list_directory", "read_file", "get_system_info", "get_storage_summary"],
            avoid_behaviors: &["no borrar ni reescribir archivos sin permiso", "no adivinar rutas"],
        },
        DomainSpecialty::Drivers => SpecialtyAgentProfile {
            specialty: *specialty,
            name: "DriversAgent",
            mission: "Detectar controladores con fallo, codigo 43 y estado de hardware.",
            response_contract: "Devuelve: dispositivo o driver, codigo de error, evidencia y paso siguiente.",
            required_evidence: &["list_driver_issues", "search_missing_driver"],
            preferred_tools: &["list_driver_issues", "update_problem_drivers", "search_missing_driver"],
            avoid_behaviors: &["no inferir hardware sin lectura real"],
        },
        DomainSpecialty::System | DomainSpecialty::Telemetry | DomainSpecialty::Maintenance | DomainSpecialty::Software => SpecialtyAgentProfile {
            specialty: *specialty,
            name: "SystemAgent",
            mission: "Consolidar estado del equipo, salud, inventario y mantenimiento seguro.",
            response_contract: "Devuelve: estado global, evidencia, riesgo y accion recomendada.",
            required_evidence: &["get_system_info", "health_summary", "scan_asset_inventory"],
            preferred_tools: &["get_system_info", "get_storage_summary", "health_summary", "health_overview", "scan_asset_inventory", "generate_operational_documentation"],
            avoid_behaviors: &["no responder con vaguedades", "no omitir metricas clave"],
        },
        _ => SpecialtyAgentProfile {
            specialty: *specialty,
            name: "GeneralAgent",
            mission: "Responder solo con evidencia cuando la especialidad no esta clara.",
            response_contract: "Devuelve: resumen breve, evidencia disponible y si hace falta clarificar.",
            required_evidence: &["get_system_info"],
            preferred_tools: &["get_system_info", "run_network_diagnostic", "health_summary"],
            avoid_behaviors: &["no inventar una especialidad", "no suponer una accion sin evidencia"],
        },
    };
    proof {
        match specialty {
            DomainSpecialty::Network => {
                assert(views_of(res.required_evidence@) =~= seq!["run_network_diagnostic"@, "get_network_adapters"@, "get_local_ip"@, "get_default_gateway"@, "get_dns_servers"@]);
                assert(views_of(res.preferred_tools@) =~= seq!["run_network_diagnostic"@, "get_network_adapters"@, "get_local_ip"@, "get_default_gateway"@, "get_dns_servers"@, "dns_lookup"@, "ping_host"@, "traceroute_host"@]);
                assert(views_of(res.avoid_behaviors@) =~= seq!["no inventar estado de internet"@, "no asumir DNS sin diagnostico"@, "no recomendar cambios destructivos"@]);
            },
            DomainSpecialty::Processes => {
                assert(views_of(res.required_evidence@) =~= seq!["list_processes"@, "get_cpu_usage"@, "get_memory_usage"@]);
                assert(views_of(res.preferred_tools@) =~= seq!["list_processes"@, "get_top_processes"@, "find_high_cpu_processes"@, "find_high_memory_processes"@, "get_process_detail"@, "get_cpu_usage"@, "get_memory_usage"@]);
                assert(views_of(res.avoid_behaviors@) =~= seq!["no diagnosticar sin lista de procesos"@, "no sugerir kill_process salvo escalado"@]);
            },
            DomainSpecialty::Services => {
                assert(views_of(res.required_evidence@) =~= seq!["list_running_services"@, "get_service_status"@, "restart_service"@]);
                assert(views_of(res.preferred_tools@) =~= seq!["list_running_services"@, "list_services"@, "get_service_status"@, "restart_service"@, "start_service"@, "stop_service"@]);
                assert(views_of(res.avoid_behaviors@) =~= seq!["no confundir servicio con proceso"@, "no reiniciar sin evidencia"@]);
            },
            DomainSpecialty::Performance => {
                assert(views_of(res.required_evidence@) =~= seq!["get_system_info"@, "get_storage_summary"@, "list_processes"@]);
                assert(views_of(res.preferred_tools@) =~= seq!["get_system_info"@, "get_storage_summary"@, "list_processes"@, "get_cpu_usage"@, "get_memory_usage"@, "get_disk_usage"@, "detect_performance_anomalies"@]);
                assert(views_of(res.avoid_behaviors@) =~= seq!["no generalizar sin metricas"@, "no usar lenguaje vago"@]);
            },
            DomainSpecialty::Security | DomainSpecialty::SensitiveOps => {
                assert(views_of(res.required_evidence@) =~= seq!["health_summary"@, "verify_go_live_controls"@, "get_audit_logs"@]);
                assert(views_of(res.preferred_tools@) =~= seq!["health_summary"@, "health_overview"@, "get_audit_logs"@, "verify_go_live_controls"@, "assess_go_live_readiness"@, "validate_kernel_guardrails"@]);
                assert(views_of(res.avoid_behaviors@) =~= seq!["no ejecutar comandos destructivos"@, "no asumir seguridad sin logs"@, "no ocultar riesgo alto"@]);
            },
            DomainSpecialty::Filesystem => {
                assert(views_of(res.required_evidence@) =~= seq!["get_system_info"@, "get_storage_summary"@, "list_directory"@]);
                assert(views_of(res.preferred_tools@) =~= seq!["list_directory"@, "read_file"@, "get_system_info"@, "get_storage_summary"@]);
                assert(views_of(res.avoid_behaviors@) =~= seq!["no borrar ni reescribir archivos sin permiso"@, "no adivinar rutas"@]);
            },
            DomainSpecialty::Drivers => {
                assert(views_of(res.required_evidence@) =~= seq!["list_driver_issues"@, "search_missing_driver"@]);
                assert(views_of(res.preferred_tools@) =~= seq!["list_driver_issues"@, "update_problem_drivers"@, "search_missing_driver"@]);
                assert(views_of(res.avoid_behaviors@) =~= seq!["no inferir hardware sin lectura real"@]);
            },
            DomainSpecialty::System | DomainSpecialty::Telemetry | DomainSpecialty::Maintenance | DomainSpecialty::Software => {
                assert(views_of(res.required_evidence@) =~= seq!["get_system_info"@, "health_summary"@, "scan_asset_inventory"@]);
                assert(views_of(res.preferred_tools@) =~= seq!["get_system_info"@, "get_storage_summary"@, "health_summary"@, "health_overview"@, "scan_asset_inventory"@, "generate_operational_documentation"@]);
                assert(views_of(res.avoid_behaviors@) =~= seq!["no responder con vaguedades"@, "no omitir metricas clave"@]);
            },
            _ => {
                assert(views_of(res.required_evidence@) =~= seq!["get_system_info"@]);
                assert(views_of(res.preferred_tools@) =~= seq!["get_system_info"@, "run_network_diagnostic"@, "health_summary"@]);
                assert(views_of(res.avoid_behaviors@) =~= seq!["no inventar una especialidad"@, "no suponer una accion sin evidencia"@]);
            },
        }
    }
    res
}

/// Folds lowercase accented letters, `ñ` and `ç` to ASCII.
pub open spec fn agent_fold(c: char) -> char {
    if c == 'á' || c == 'à' || c == 'ä' || c == 'â' || c == 'ã' || c == 'å' {
        'a'
    } else if c == 'é' || c == 'è' || c == 'ë' || c == 'ê' {
        'e'
    } else if c == 'í' || c == 'ì' || c == 'ï' || c == 'î' {
        'i'
    } else if c == 'ó' || c == 'ò' || c == 'ö' || c == 'ô' || c == 'õ' {
        'o'
    } else if c == 'ú' || c == 'ù' || c == 'ü' || c == 'û' {
        'u'
    } else if c == 'ñ' {
        'n'
    } else if c == 'ç' {
        'c'
    } else if is_ascii_alnum(c) || is_ascii_ws(c) {
        c
    } else {
        ' '
    }
}

/// A message lowercased, folded to ASCII letters, digits and whitespace, and
/// with whitespace collapsed.
pub open spec fn agent_normalize_spec(s: Seq<char>) -> Seq<char> {
    agent_fold_lowered(lowercase_of(s))
}

/// A lowercased message folded to ASCII letters, digits and whitespace,
/// with whitespace collapsed.
pub open spec fn agent_fold_lowered(l: Seq<char>) -> Seq<char> {
    collapse_ws(l.map_values(|c: char| agent_fold(c)))
}

fn fold(c: char) -> (r: char)
    ensures
        r == agent_fold(c),
{
    if c == 'á' || c == 'à' || c == 'ä' || c == 'â' || c == 'ã' || c == 'å' {
        'a'
    } else if c == 'é' || c == 'è' || c == 'ë' || c == 'ê' {
        'e'
    } else if c == 'í' || c == 'ì' || c == 'ï' || c == 'î' {
        'i'
    } else if c == 'ó' || c == 'ò' || c == 'ö' || c == 'ô' || c == 'õ' {
        'o'
    } else if c == 'ú' || c == 'ù' || c == 'ü' || c == 'û' {
        'u'
    } else if c == 'ñ' {
        'n'
    } else if c == 'ç' {
        'c'
    } else if is_ascii_alphanumeric(c) || is_ascii_whitespace(c) {
        c
    } else {
        ' '
    }
}

/// Normalizes a message for keyword matching.
pub fn normalize_message(message: &str) -> (res: String)
    ensures
        res@ == agent_normalize_spec(message@),
{
    let lowered = lowercase_chars(message);
    fold_lowered_message(&lowered)
}

/// Folds an already lowercased message for keyword matching.
pub fn fold_lowered_message(lowered: &Vec<char>) -> (res: String)
    ensures
        res@ == agent_fold_lowered(lowered@),
{
    let mut mapped: Vec<char> = Vec::new();
    let mut i: usize = 0;
    while i < lowered.len()
        invariant
            i <= lowered.len(),
            mapped@ == lowered@.take(i as int).map_values(|c: char| agent_fold(c)),
        decreases lowered.len() - i,
    {
        mapped.push(fold(lowered[i]));
        assert(lowered@.take(i as int + 1).map_values(|c: char| agent_fold(c))
            =~= lowered@.take(i as int).map_values(|c: char| agent_fold(c)).push(agent_fold(lowered@[i as int])));
        i += 1;
    }
    assert(lowered@.take(lowered.len() as int) =~= lowered@);
    let collapsed = collapse_whitespace(&mapped);
    string_from_chars(&collapsed)
}

/// The tools to offer first for a normalized message: network, health,
/// process or service tools by the first family whose keywords occur; a
/// general set otherwise.
pub open spec fn preferred_tools_spec(text: Seq<char>) -> Seq<Seq<char>> {
    if contains_any_spec(text, seq!["tarjeta"@, "adaptador"@, "red"@, "ip"@, "dns"@, "gateway"@, "wifi"@]) {
        seq!["run_network_diagnostic"@, "get_network_adapters"@, "get_local_ip"@, "get_default_gateway"@, "get_dns_servers"@, "get_wifi_info"@, "get_public_ip"@, "ping_host"@, "dns_lookup"@, "traceroute_host"@, "test_tcp_port"@, "get_network_usage"@]
    } else if contains_any_spec(text, seq!["estado"@, "salud"@, "health"@, "disco"@, "almacenamiento"@]) {
        seq!["health_summary"@, "get_system_info"@, "get_storage_summary"@, "health_overview"@, "scan_asset_inventory"@, "run_operational_suite"@]
    } else if contains_any_spec(text, seq!["proceso"@, "cpu"@, "memoria"@, "rendimiento"@, "lento"@]) {
        seq!["list_processes"@, "get_top_processes"@, "find_high_cpu_processes"@, "find_high_memory_processes"@, "get_process_detail"@, "get_cpu_usage"@, "get_memory_usage"@, "get_disk_usage"@, "get_system_info"@]
    } else if contains_any_spec(text, seq!["servicio"@, "service"@]) {
        seq!["list_running_services"@, "list_services"@, "get_service_status"@, "restart_service"@, "start_service"@, "stop_service"@]
    } else {
        seq!["get_system_info"@, "list_processes"@, "run_network_diagnostic"@, "get_network_adapters"@, "get_local_ip"@, "get_dns_servers"@, "list_running_services"@, "generate_support_report"@]
    }
}

/// The tools to offer first for a message, by its keywords.
pub fn preferred_tools_for_message(message: &str) -> (res: Vec<&'static str>)
    ensures
        views_of(res@) == preferred_tools_spec(agent_normalize_spec(message@)),
{
    let text = chars_of(normalize_message(message).as_str());
    preferred_tools_for_normalized(&text)
}

/// The tools to offer first for a normalized message, by its keywords.
pub fn preferred_tools_for_normalized(text: &Vec<char>) -> (res: Vec<&'static str>)
    ensures
        views_of(res@) == preferred_tools_spec(text@),
{
    let terms0: [&str; 7] = ["tarjeta", "adaptador", "red", "ip", "dns", "gateway", "wifi"];
    assert(views_of(terms0@) =~= seq!["tarjeta"@, "adaptador"@, "red"@, "ip"@, "dns"@, "gateway"@, "wifi"@]);
    if contains_any(text, &terms0) {
        let res = vec!["run_network_diagnostic", "get_network_adapters", "get_local_ip", "get_default_gateway", "get_dns_servers", "get_wifi_info", "get_public_ip", "ping_host", "dns_lookup", "traceroute_host", "test_tcp_port", "get_network_usage"];
        assert(views_of(res@) =~= seq!["run_network_diagnostic"@, "get_network_adapters"@, "get_local_ip"@, "get_default_gateway"@, "get_dns_servers"@, "get_wifi_info"@, "get_public_ip"@, "ping_host"@, "dns_lookup"@, "traceroute_host"@, "test_tcp_port"@, "get_network_usage"@]);
        return res;
    }
    let terms1: [&str; 5] = ["estado", "salud", "health", "disco", "almacenamiento"];
    assert(views_of(terms1@) =~= seq!["estado"@, "salud"@, "health"@, "disco"@, "almacenamiento"@]);
    if contains_any(text, &terms1) {
        let res = vec!["health_summary", "get_system_info", "get_storage_summary", "health_overview", "scan_asset_inventory", "run_operational_suite"];
        assert(views_of(res@) =~= seq!["health_summary"@, "get_system_info"@, "get_storage_summary"@, "health_overview"@, "scan_asset_inventory"@, "run_operational_suite"@]);
        return res;
    }
    let terms2: [&str; 5] = ["proceso", "cpu", "memoria", "rendimiento", "lento"];
    assert(views_of(terms2@) =~= seq!["proceso"@, "cpu"@, "memoria"@, "rendimiento"@, "lento"@]);
    if contains_any(text, &terms2) {
        let res = vec!["list_processes", "get_top_processes", "find_high_cpu_processes", "find_high_memory_processes", "get_process_detail", "get_cpu_usage", "get_memory_usage", "get_disk_usage", "get_system_info"];
        assert(views_of(res@) =~= seq!["list_processes"@, "get_top_processes"@, "find_high_cpu_processes"@, "find_high_memory_processes"@, "get_process_detail"@, "get_cpu_usage"@, "get_memory_usage"@, "get_disk_usage"@, "get_system_info"@]);
        return res;
    }
    let terms3: [&str; 2] = ["servicio", "service"];
    assert(views_of(terms3@) =~= seq!["servicio"@, "service"@]);
    if contains_any(text, &terms3) {
        let res = vec!["list_running_services", "list_services", "get_service_status", "restart_service", "start_service", "stop_service"];
        assert(views_of(res@) =~= seq!["list_running_services"@, "list_services"@, "get_service_status"@, "restart_service"@, "start_service"@, "stop_service"@]);
        return res;
    }
    let res = vec!["get_system_info", "list_processes", "run_network_diagnostic", "get_network_adapters", "get_local_ip", "get_dns_servers", "list_running_services", "generate_support_report"];
    assert(views_of(res@) =~= seq!["get_system_info"@, "list_processes"@, "run_network_diagnostic"@, "get_network_adapters"@, "get_local_ip"@, "get_dns_servers"@, "list_running_services"@, "generate_support_report"@]);
    res
}

} // verus!
