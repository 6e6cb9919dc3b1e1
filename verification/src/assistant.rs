//! The assistant's conversation state and settings, as the user commands see
//! them.

use vstd::prelude::*;
use crate::chat::{ChatMessage, MessageRole, OllamaModel};
use crate::settings::{first_model, AppSettings, ModelConfig, SupportProfile, UserRole, unlocked_at};
use crate::memory::{
    confidence_level_code, confidence_level_code_str, decision_mode_code, decision_mode_code_str, risk_level_code,
    risk_level_code_str,
};
use crate::models::DomainSpecialty;
use crate::intent_engine::{IntentCategory, OperationalAssessment};
use crate::router::{GovernedContext, LocalToolRoute};
use crate::text::{chars_of, decimal, decimal_string, err_msg, replace_all, replace_chars, str_eq, string_from_chars, string_views};

verus! {

/// The system prompt that opens every conversation.
pub open spec fn system_prompt() -> Seq<char> {
    "Eres KERNEL IA, un sistema avanzado de diagnostico y asistencia tecnica especializado en Windows.\nTu objetivo es ayudar al usuario a identificar y solucionar problemas tecnicos, optimizar el rendimiento y mantener la seguridad del sistema.\n\nCapacidades de diagnostico:\n- Analisis de procesos, servicios y consumo de recursos (CPU/RAM/Disco).\n- Verificacion de integridad de archivos y salud del sistema de archivos.\n- Diagnostico de red (conectividad, latencia, DNS).\n- Auditoria de seguridad basica y comprobacion de actualizaciones.\n\nDirectrices de interaccion:\n1. Explica brevemente que vas a hacer y por que antes de ejecutar herramientas.\n2. Si estas procesando datos en segundo plano, dilo de forma clara.\n3. Usa tono tecnico pero accesible. Explica terminos complejos si es necesario.\n4. No solicites contrasenas ni sugieras acciones inseguras.\n5. Usa herramientas reales cuando el usuario pida diagnostico, red, procesos, archivos o reportes.\n\nActualmente operando en modo local/hibrido seguro.\nDesarrollado por HackTeck SpA."@
}

/// The note added to the conversation on the first run.
pub open spec fn first_run_note() -> Seq<char> {
    "Este es el primer inicio del usuario. PresÃƒÂ©ntate brevemente y ofrece ayuda para configurar las API keys de los modelos de IA."@
}

/// A tool that was used while answering.
#[derive(Debug, Clone)]
pub struct ToolUseInfo {
    pub name: String,
    pub arguments: String,
}

/// An Ollama server that was found, with its models.
#[derive(Debug, Clone)]
pub struct OllamaInstance {
    pub host: String,
    pub models: Vec<OllamaModel>,
    pub is_local: bool,
}

/// The assistant: its settings, the conversation so far, and the session
/// under which its memory is kept.
pub struct AiRouter {
    pub settings: AppSettings,
    pub history: Vec<ChatMessage>,
    pub rag_session_id: Option<String>,
}

/// A message as role and text.
pub open spec fn msg_turn(m: ChatMessage) -> (MessageRole, Seq<char>) {
    (m.role, m.content@)
}

/// The system messages of a history, in order.
pub open spec fn system_only(ms: Seq<ChatMessage>) -> Seq<ChatMessage>
    decreases ms.len(),
{
    if ms.len() == 0 {
        ms
    } else if ms.last().role == MessageRole::System {
        system_only(ms.drop_last()).push(ms.last())
    } else {
        system_only(ms.drop_last())
    }
}

/// The texts of the last `max` user and assistant messages, newest first.
pub open spec fn recent_window(ms: Seq<ChatMessage>, max: nat) -> Seq<Seq<char>>
    decreases ms.len(),
{
    if ms.len() == 0 || max == 0 {
        Seq::empty()
    } else if ms.last().role == MessageRole::User || ms.last().role == MessageRole::Assistant {
        seq![ms.last().content@] + recent_window(ms.drop_last(), (max - 1) as nat)
    } else {
        recent_window(ms.drop_last(), max)
    }
}

/// A message of `role` with the text `text` and nothing else.
pub open spec fn plain_message(m: ChatMessage, role: MessageRole, text: Seq<char>) -> bool {
    &&& m.role == role
    &&& m.content@ == text
    &&& m.reasoning_content is None
    &&& m.tool_call_id is None
    &&& m.tool_calls is None
}

fn system_message(content: &str) -> (m: ChatMessage)
    ensures
        msg_turn(m) == (MessageRole::System, content@),
        m.reasoning_content is None && m.tool_call_id is None && m.tool_calls is None,
{
    ChatMessage { role: MessageRole::System, content: String::from_str(content), reasoning_content: None, tool_call_id: None, tool_calls: None }
}

impl AiRouter {
    /// A new assistant: the conversation holds the system prompt, and on the
    /// first run a note that asks for a short introduction; these carry no
    /// reasoning, call id or tool calls.
    pub fn new(settings: AppSettings) -> (r: Self)
        ensures
            r.settings == settings,
            r.rag_session_id is None,
            forall|i: int| 0 <= i < r.history@.len() ==> {
                &&& (#[trigger] r.history@[i]).reasoning_content is None
                &&& r.history@[i].tool_call_id is None
                &&& r.history@[i].tool_calls is None
            },
            r.history@.map_values(|m: ChatMessage| msg_turn(m)) == (if settings.first_run {
                seq![(MessageRole::System, system_prompt()), (MessageRole::System, first_run_note())]
            } else {
                seq![(MessageRole::System, system_prompt())]
            }),
    {
        let mut history: Vec<ChatMessage> = Vec::new();
        history.push(system_message("Eres KERNEL IA, un sistema avanzado de diagnostico y asistencia tecnica especializado en Windows.\nTu objetivo es ayudar al usuario a identificar y solucionar problemas tecnicos, optimizar el rendimiento y mantener la seguridad del sistema.\n\nCapacidades de diagnostico:\n- Analisis de procesos, servicios y consumo de recursos (CPU/RAM/Disco).\n- Verificacion de integridad de archivos y salud del sistema de archivos.\n- Diagnostico de red (conectividad, latencia, DNS).\n- Auditoria de seguridad basica y comprobacion de actualizaciones.\n\nDirectrices de interaccion:\n1. Explica brevemente que vas a hacer y por que antes de ejecutar herramientas.\n2. Si estas procesando datos en segundo plano, dilo de forma clara.\n3. Usa tono tecnico pero accesible. Explica terminos complejos si es necesario.\n4. No solicites contrasenas ni sugieras acciones inseguras.\n5. Usa herramientas reales cuando el usuario pida diagnostico, red, procesos, archivos o reportes.\n\nActualmente operando en modo local/hibrido seguro.\nDesarrollado por HackTeck SpA."));
        if settings.first_run {
            history.push(system_message("Este es el primer inicio del usuario. PresÃƒÂ©ntate brevemente y ofrece ayuda para configurar las API keys de los modelos de IA."));
        }
        let r = AiRouter { settings, history, rag_session_id: None };
        proof {
            if r.settings.first_run {
                assert(r.history@.map_values(|m: ChatMessage| msg_turn(m)) =~= seq![(MessageRole::System, system_prompt()), (MessageRole::System, first_run_note())]);
            } else {
                assert(r.history@.map_values(|m: ChatMessage| msg_turn(m)) =~= seq![(MessageRole::System, system_prompt())]);
            }
        }
        r
    }

    /// Forgets the conversation but keeps its system messages, whole and in
    /// their order.
    pub fn clear_history(&mut self)
        ensures
            final(self).history@ == system_only(old(self).history@),
            final(self).settings == old(self).settings,
            final(self).rag_session_id == old(self).rag_session_id,
    {
        let mut rest: Vec<ChatMessage> = Vec::new();
        std::mem::swap(&mut rest, &mut self.history);
        let mut kept: Vec<ChatMessage> = Vec::new();
        while rest.len() > 0
            invariant
                system_only(old(self).history@) == system_only(rest@) + kept@,
                self.settings == old(self).settings,
                self.rag_session_id == old(self).rag_session_id,
            decreases rest.len(),
        {
            let ghost before = rest@;
            let m = rest.pop().unwrap();
            assert(rest@ == before.drop_last());
            if m.role == MessageRole::System {
                let ghost kb = kept@;
                kept.insert(0, m);
                assert(system_only(before) + kb =~= system_only(rest@) + kept@);
            }
        }
        assert(system_only(rest@) =~= Seq::<ChatMessage>::empty());
        assert(system_only(old(self).history@) =~= kept@);
        self.history = kept;
    }

    /// Selects a model; it must be configured.
    pub fn set_model(&mut self, model_id: &str) -> (r: Result<(), String>)
        ensures
            first_model(old(self).settings.models@, model_id@, 0) is Some ==> r is Ok
                && final(self).settings.selected_model@ == model_id@
                && final(self).settings.models == old(self).settings.models
                && final(self).settings.users == old(self).settings.users
                && final(self).history == old(self).history,
            first_model(old(self).settings.models@, model_id@, 0) is None ==>
                err_msg(r, "Model '"@ + model_id@ + "' not found"@) && *final(self) == *old(self),
    {
        let mut k: usize = 0;
        while k < self.settings.models.len()
            invariant
                k <= self.settings.models.len(),
                *self == *old(self),
                first_model(self.settings.models@, model_id@, 0) == first_model(self.settings.models@, model_id@, k as int),
            decreases self.settings.models.len() - k,
        {
            if str_eq(self.settings.models[k].id.as_str(), model_id) {
                self.settings.selected_model = String::from_str(model_id);
                return Ok(());
            }
            k += 1;
        }
        let mut e = String::from_str("Model '");
        e.append(model_id);
        e.append("' not found");
        Err(e)
    }

    /// Stores a model's API key, as the settings do.
    pub fn set_api_key(&mut self, model_id: &str, api_key: &str) -> (r: Result<(), String>)
        ensures
            first_model(old(self).settings.models@, model_id@, 0) is None ==> err_msg(r, "Model '"@ + model_id@ + "' not found"@),
            r is Err ==> *final(self) == *old(self),
            final(self).history == old(self).history,
    {
        self.settings.set_api_key(model_id, api_key)
    }

    /// The current settings.
    pub fn get_settings(&self) -> (r: &AppSettings)
        ensures
            *r == self.settings,
    {
        &self.settings
    }

    /// Replaces the settings.
    pub fn update_settings(&mut self, new_settings: AppSettings)
        ensures
            final(self).settings == new_settings,
            final(self).history == old(self).history,
            final(self).rag_session_id == old(self).rag_session_id,
    {
        self.settings = new_settings;
    }

    /// The texts of the last `max_items` user and assistant messages, newest
    /// first.
    pub fn recent_context_window(&self, max_items: usize) -> (r: Vec<String>)
        ensures
            r@.map_values(|s: String| s@) == recent_window(self.history@, max_items as nat),
    {
        let mut out: Vec<String> = Vec::new();
        let mut i: usize = self.history.len();
        let mut left: usize = max_items;
        assert(self.history@.take(self.history.len() as int) =~= self.history@);
        while i > 0 && left > 0
            invariant
                i <= self.history.len(),
                left <= max_items,
                out@.map_values(|s: String| s@) + recent_window(self.history@.take(i as int), left as nat)
                    == recent_window(self.history@, max_items as nat),
            decreases i,
        {
            let ghost pre = self.history@.take(i as int);
            assert(pre.drop_last() =~= self.history@.take(i as int - 1));
            let m = &self.history[i - 1];
            if m.role == MessageRole::User || m.role == MessageRole::Assistant {
                let c = m.content.clone();
                let ghost before = out@;
                out.push(c);
                assert(out@.map_values(|s: String| s@) =~= before.map_values(|s: String| s@).push(c@));
                left -= 1;
            }
            i -= 1;
        }
        proof {
            let rest = recent_window(self.history@.take(i as int), left as nat);
            assert(rest =~= Seq::<Seq<char>>::empty());
        }
        assert(out@.map_values(|s: String| s@) + Seq::<Seq<char>>::empty() =~= out@.map_values(|s: String| s@));
        out
    }
}

/// What the interface shows of the retrieval pipeline for one answer; the
/// numeric confidence score stays with the caller.
#[derive(Debug, Clone)]
pub struct RagUiContext {
    pub enabled: bool,
    pub specialty: Option<String>,
    pub confidence_level: Option<String>,
    pub decision_mode: Option<String>,
    pub risk_level: Option<String>,
    pub trace_id: Option<String>,
    pub show_summary_badge: bool,
    pub debug_panel_enabled: bool,
    pub retrieval_counts: Vec<String>,
    pub reason_codes: Vec<String>,
    pub live_conflicts: Vec<String>,
}

/// An answer: its text, the tools used, the model that gave it, what the
/// interface shows of the pipeline, the two readings of the message side by
/// side when comparison is on, and an error if there was one.
#[derive(Debug, Clone)]
pub struct ChatResponse {
    pub text: String,
    pub tools_used: Vec<ToolUseInfo>,
    pub model: String,
    pub rag_context: Option<RagUiContext>,
    pub rag_comparison: Option<RagComparisonContext>,
    pub error: Option<String>,
}

/// The lowercase name a specialty is printed with.
pub open spec fn specialty_printed(s: DomainSpecialty) -> Seq<char> {
    match s {
        DomainSpecialty::System => "system"@,
        DomainSpecialty::Telemetry => "telemetry"@,
        DomainSpecialty::Network => "network"@,
        DomainSpecialty::Processes => "processes"@,
        DomainSpecialty::Services => "services"@,
        DomainSpecialty::Maintenance => "maintenance"@,
        DomainSpecialty::Security => "security"@,
        DomainSpecialty::Drivers => "drivers"@,
        DomainSpecialty::Filesystem => "filesystem"@,
        DomainSpecialty::Audit => "audit"@,
        DomainSpecialty::Performance => "performance"@,
        DomainSpecialty::Software => "software"@,
        DomainSpecialty::SensitiveOps => "sensitiveops"@,
        DomainSpecialty::Megaboss => "megaboss"@,
        DomainSpecialty::Unknown => "unknown"@,
    }
}

fn specialty_printed_str(s: &DomainSpecialty) -> (r: &'static str)
    ensures
        r@ == specialty_printed(*s),
{
    match s {
        DomainSpecialty::System => "system",
        DomainSpecialty::Telemetry => "telemetry",
        DomainSpecialty::Network => "network",
        DomainSpecialty::Processes => "processes",
        DomainSpecialty::Services => "services",
        DomainSpecialty::Maintenance => "maintenance",
        DomainSpecialty::Security => "security",
        DomainSpecialty::Drivers => "drivers",
        DomainSpecialty::Filesystem => "filesystem",
        DomainSpecialty::Audit => "audit",
        DomainSpecialty::Performance => "performance",
        DomainSpecialty::Software => "software",
        DomainSpecialty::SensitiveOps => "sensitiveops",
        DomainSpecialty::Megaboss => "megaboss",
        DomainSpecialty::Unknown => "unknown",
    }
}

pub open spec fn opt_text(o: Option<String>) -> Option<Seq<char>> {
    match o {
        Some(s) => Some(s@),
        None => None,
    }
}

/// The retrieval counts shown for a governed request.
pub open spec fn retrieval_counts_spec(g: GovernedContext) -> Seq<Seq<char>> {
    seq![
        "knowledge="@ + decimal(g.retrieval.knowledge_hits@.len()),
        "commands="@ + decimal(g.retrieval.command_hits@.len()),
        "policies="@ + decimal(g.retrieval.policy_hits@.len()),
    ]
}

/// What the interface shows: for a governed request its specialty,
/// confidence level, decision mode and risk as lowercase names, the badge
/// setting, the retrieval counts, the decision's reasons and the live
/// conflicts; without one, a disabled context that says so.
pub open spec fn rag_ui_spec(g: Option<GovernedContext>, settings: AppSettings, trace_id: Option<Seq<char>>, r: RagUiContext) -> bool {
    &&& opt_text(r.trace_id) == trace_id
    &&& r.debug_panel_enabled == settings.rag_debug_panel
    &&& match g {
        Some(g) => {
            &&& r.enabled
            &&& opt_text(r.specialty) == Some(specialty_printed(g.decision.specialty))
            &&& opt_text(r.confidence_level) == Some(confidence_level_code(g.decision.confidence_level))
            &&& opt_text(r.decision_mode) == Some(decision_mode_code(g.decision.decision_mode))
            &&& opt_text(r.risk_level) == Some(risk_level_code(g.decision.risk_level))
            &&& r.show_summary_badge == settings.rag_show_confidence_badge
            &&& string_views(r.retrieval_counts@) == retrieval_counts_spec(g)
            &&& string_views(r.reason_codes@) == string_views(g.decision.reason_codes@)
            &&& string_views(r.live_conflicts@) == string_views(g.live_state.conflict_flags@)
        },
        None => {
            &&& !r.enabled
            &&& r.specialty is None && r.confidence_level is None && r.decision_mode is None && r.risk_level is None
            &&& !r.show_summary_badge
            &&& string_views(r.retrieval_counts@) == seq!["legacy_mode"@]
            &&& string_views(r.reason_codes@) == seq!["RAG_DISABLED"@]
            &&& r.live_conflicts@.len() == 0
        },
    }
}

fn copy_strings(v: &Vec<String>) -> (r: Vec<String>)
    ensures
        string_views(r@) == string_views(v@),
{
    let mut out: Vec<String> = Vec::new();
    let mut i: usize = 0;
    while i < v.len()
        invariant
            i <= v.len(),
            string_views(out@) == string_views(v@).take(i as int),
        decreases v.len() - i,
    {
        let ghost before = out@;
        let c = v[i].clone();
        out.push(c);
        assert(string_views(out@) =~= string_views(before).push(c@));
        assert(string_views(v@).take(i as int + 1) =~= string_views(v@).take(i as int).push(c@));
        i += 1;
    }
    assert(string_views(v@).take(v.len() as int) =~= string_views(v@));
    out
}

fn count_line(label: &str, n: usize) -> (r: String)
    ensures
        r@ == label@ + decimal(n as nat),
{
    let mut out = String::from_str(label);
    let d = decimal_string(n);
    out.append(d.as_str());
    out
}

/// What the interface shows of the pipeline for one answer.
pub fn build_rag_ui_context(governed: Option<&GovernedContext>, settings: &AppSettings, trace_id: Option<String>) -> (r: RagUiContext)
    ensures
        rag_ui_spec(match governed { Some(g) => Some(*g), None => None }, *settings, opt_text(trace_id), r),
{
    match governed {
        Some(g) => {
            let mut counts: Vec<String> = Vec::new();
            counts.push(count_line("knowledge=", g.retrieval.knowledge_hits.len()));
            counts.push(count_line("commands=", g.retrieval.command_hits.len()));
            counts.push(count_line("policies=", g.retrieval.policy_hits.len()));
            assert(string_views(counts@) =~= retrieval_counts_spec(*g));
            RagUiContext {
                enabled: true,
                specialty: Some(String::from_str(specialty_printed_str(&g.decision.specialty))),
                confidence_level: Some(String::from_str(confidence_level_code_str(&g.decision.confidence_level))),
                decision_mode: Some(String::from_str(decision_mode_code_str(&g.decision.decision_mode))),
                risk_level: Some(String::from_str(risk_level_code_str(&g.decision.risk_level))),
                trace_id,
                show_summary_badge: settings.rag_show_confidence_badge,
                debug_panel_enabled: settings.rag_debug_panel,
                retrieval_counts: counts,
                reason_codes: copy_strings(&g.decision.reason_codes),
                live_conflicts: copy_strings(&g.live_state.conflict_flags),
            }
        },
        None => {
            let counts = vec![String::from_str("legacy_mode")];
            let reasons = vec![String::from_str("RAG_DISABLED")];
            assert(string_views(counts@) =~= seq!["legacy_mode"@]);
            assert(string_views(reasons@) =~= seq!["RAG_DISABLED"@]);
            RagUiContext {
                enabled: false,
                specialty: None,
                confidence_level: None,
                decision_mode: None,
                risk_level: None,
                trace_id,
                show_summary_badge: false,
                debug_panel_enabled: settings.rag_debug_panel,
                retrieval_counts: counts,
                reason_codes: reasons,
                live_conflicts: Vec::new(),
            }
        },
    }
}

/// The answer given after a tool was run directly: the success prefix and
/// the tool's output, or the error prefix and its error (`Error
/// desconocido.` when it gave none).
pub open spec fn local_reply_spec(success: bool, output: Seq<char>, error: Option<Seq<char>>, ok_prefix: Seq<char>, err_prefix: Seq<char>) -> Seq<char> {
    if success {
        ok_prefix + output
    } else {
        err_prefix + match error { Some(e) => e, None => "Error desconocido."@ }
    }
}

/// The answer given after a tool was run directly.
pub fn local_reply_text(success: bool, output: &str, error: Option<&str>, ok_prefix: &str, err_prefix: &str) -> (r: String)
    ensures
        r@ == local_reply_spec(success, output@, match error { Some(e) => Some(e@), None => None }, ok_prefix@, err_prefix@),
{
    if success {
        let mut out = String::from_str(ok_prefix);
        out.append(output);
        out
    } else {
        let mut out = String::from_str(err_prefix);
        match error {
            Some(e) => out.append(e),
            None => out.append("Error desconocido."),
        }
        out
    }
}

impl AiRouter {
    /// Records an answer of the assistant at the end of the conversation.
    pub fn push_assistant_reply(&mut self, text: &str)
        ensures
            final(self).history@.map_values(|m: ChatMessage| msg_turn(m))
                == old(self).history@.map_values(|m: ChatMessage| msg_turn(m)).push((MessageRole::Assistant, text@)),
            final(self).history@.len() == old(self).history@.len() + 1,
            final(self).history@.drop_last() == old(self).history@,
            plain_message(final(self).history@.last(), MessageRole::Assistant, text@),
            final(self).settings == old(self).settings,
            final(self).rag_session_id == old(self).rag_session_id,
    {
        let ghost before = self.history@;
        self.history.push(ChatMessage {
            role: MessageRole::Assistant,
            content: String::from_str(text),
            reasoning_content: None,
            tool_call_id: None,
            tool_calls: None,
        });
        assert(self.history@.map_values(|m: ChatMessage| msg_turn(m)) =~= before.map_values(|m: ChatMessage| msg_turn(m)).push((MessageRole::Assistant, text@)));
    }

    /// The session under which memory is kept: the known one, or the given
    /// new one, which is then remembered.
    pub fn session_id_or(&mut self, fresh: &str) -> (r: String)
        ensures
            old(self).rag_session_id matches Some(s) ==> r@ == s@ && final(self).rag_session_id == old(self).rag_session_id,
            old(self).rag_session_id is None ==> r@ == fresh@ && opt_text(final(self).rag_session_id) == Some(fresh@),
            final(self).settings == old(self).settings,
            final(self).history == old(self).history,
    {
        match &self.rag_session_id {
            Some(s) => s.clone(),
            None => {
                self.rag_session_id = Some(String::from_str(fresh));
                String::from_str(fresh)
            },
        }
    }
}

/// The system message that opens a request: the operational section, and
/// after a blank line the governed context when there is one.
pub open spec fn system_context_spec(operational: Seq<char>, g: Option<GovernedContext>) -> Seq<char> {
    match g {
        Some(g) => operational + "\n\n"@ + g.prompt_context@,
        None => operational,
    }
}

/// Builds the system message that opens a request.
pub fn system_context_message(operational_context: &str, governed: Option<&GovernedContext>) -> (m: ChatMessage)
    ensures
        m.role == MessageRole::System,
        m.content@ == system_context_spec(operational_context@, match governed { Some(g) => Some(*g), None => None }),
        m.reasoning_content is None,
        m.tool_call_id is None,
        m.tool_calls is None,
{
    let mut content = String::from_str(operational_context);
    match governed {
        Some(g) => {
            content.append("\n\n");
            content.append(g.prompt_context.as_str());
        },
        None => {},
    }
    ChatMessage { role: MessageRole::System, content, reasoning_content: None, tool_call_id: None, tool_calls: None }
}

impl AiRouter {
    /// Answers with the result of a tool run directly for a route: records
    /// the answer in the conversation and reports the tool used with its
    /// arguments.
    pub fn finish_local_route(&mut self, route: &LocalToolRoute, success: bool, output: &str, error: Option<&str>) -> (r: (String, Vec<ToolUseInfo>))
        ensures
            r.0@ == local_reply_spec(success, output@, match error { Some(e) => Some(e@), None => None }, route.ok_prefix@, route.err_prefix@),
            final(self).history@.map_values(|m: ChatMessage| msg_turn(m))
                == old(self).history@.map_values(|m: ChatMessage| msg_turn(m)).push((MessageRole::Assistant, r.0@)),
            final(self).history@.len() == old(self).history@.len() + 1,
            final(self).history@.drop_last() == old(self).history@,
            plain_message(final(self).history@.last(), MessageRole::Assistant, r.0@),
            r.1@.len() == 1,
            r.1@[0].name@ == route.tool_name@,
            r.1@[0].arguments@ == route.args@,
            final(self).settings == old(self).settings,
            final(self).rag_session_id == old(self).rag_session_id,
    {
        let text = local_reply_text(success, output, error, route.ok_prefix, route.err_prefix);
        self.push_assistant_reply(text.as_str());
        let used = vec![ToolUseInfo { name: route.tool_name.clone(), arguments: route.args.clone() }];
        (text, used)
    }
}

/// How many messages at the start of a conversation are system messages.
pub open spec fn leading_system(ms: Seq<ChatMessage>) -> nat
    decreases ms.len(),
{
    if ms.len() == 0 {
        0
    } else if ms[0].role == MessageRole::System {
        1 + leading_system(ms.skip(1))
    } else {
        0
    }
}

/// A conversation kept within `max` messages: when longer, its leading
/// system messages and the latest of the others, `max` in all.
pub open spec fn bounded_history(ms: Seq<ChatMessage>, max: nat) -> Seq<ChatMessage> {
    if ms.len() <= max {
        ms
    } else {
        let s = leading_system(ms);
        ms.take(s as int) + ms.skip(ms.len() - (max - s))
    }
}

/// A conversation that only starts being bounded once the system messages
/// fit within the bound.
pub open spec fn boundable(ms: Seq<ChatMessage>, max: nat) -> bool {
    ms.len() > max ==> leading_system(ms) <= max
}

proof fn lemma_leading_system_bounds(ms: Seq<ChatMessage>)
    ensures
        leading_system(ms) <= ms.len(),
        forall|i: int| 0 <= i < leading_system(ms) ==> ms[i].role == MessageRole::System,
        leading_system(ms) < ms.len() ==> ms[leading_system(ms) as int].role != MessageRole::System,
    decreases ms.len(),
{
    if ms.len() > 0 && ms[0].role == MessageRole::System {
        lemma_leading_system_bounds(ms.skip(1));
        assert forall|i: int| 0 <= i < leading_system(ms) implies ms[i].role == MessageRole::System by {
            if i > 0 {
                assert(ms[i] == ms.skip(1)[i - 1]);
            }
        }
        if leading_system(ms) < ms.len() {
            assert(ms[leading_system(ms) as int] == ms.skip(1)[leading_system(ms.skip(1)) as int]);
        }
    }
}

proof fn lemma_leading_system_prefix(ms: Seq<ChatMessage>, k: int)
    requires
        0 <= k <= ms.len(),
        forall|i: int| 0 <= i < k ==> ms[i].role == MessageRole::System,
        k < ms.len() ==> ms[k].role != MessageRole::System,
    ensures
        leading_system(ms) == k,
    decreases k,
{
    if k > 0 {
        lemma_leading_system_prefix(ms.skip(1), k - 1);
    }
}

fn leading_system_count(ms: &Vec<ChatMessage>) -> (r: usize)
    ensures
        r == leading_system(ms@),
{
    let mut k: usize = 0;
    while k < ms.len() && ms[k].role == MessageRole::System
        invariant
            k <= ms.len(),
            forall|i: int| 0 <= i < k ==> ms@[i].role == MessageRole::System,
        decreases ms.len() - k,
    {
        k += 1;
    }
    proof { lemma_leading_system_prefix(ms@, k as int); }
    k
}

/// Whether a conversation can be kept within `max` messages: it is short
/// enough, or its leading system messages fit.
pub fn boundable_history(messages: &Vec<ChatMessage>, max: usize) -> (r: bool)
    ensures
        r == boundable(messages@, max as nat),
{
    messages.len() <= max || leading_system_count(messages) <= max
}

/// Keeps a conversation within `max` messages, as `bounded_history` says.
pub fn bound_history(messages: Vec<ChatMessage>, max: usize) -> (r: Vec<ChatMessage>)
    requires
        boundable(messages@, max as nat),
    ensures
        r@ == bounded_history(messages@, max as nat),
{
    if messages.len() <= max {
        return messages;
    }
    let s = leading_system_count(&messages);
    let mut head = messages;
    let ghost all = head@;
    let mut rest = head.split_off(s);
    let keep: usize = rest.len() - (max - s);
    let mut tail = rest.split_off(keep);
    head.append(&mut tail);
    assert(head@ =~= all.take(s as int) + all.skip(all.len() - (max - s)));
    head
}

impl AiRouter {
    /// Adds the user's message to the conversation.
    pub fn push_user_message(&mut self, text: &str)
        ensures
            final(self).history@.map_values(|m: ChatMessage| msg_turn(m))
                == old(self).history@.map_values(|m: ChatMessage| msg_turn(m)).push((MessageRole::User, text@)),
            final(self).history@.len() == old(self).history@.len() + 1,
            final(self).history@.drop_last() == old(self).history@,
            plain_message(final(self).history@.last(), MessageRole::User, text@),
            final(self).settings == old(self).settings,
            final(self).rag_session_id == old(self).rag_session_id,
    {
        let ghost before = self.history@;
        self.history.push(ChatMessage { role: MessageRole::User, content: String::from_str(text), reasoning_content: None, tool_call_id: None, tool_calls: None });
        assert(self.history@.map_values(|m: ChatMessage| msg_turn(m)) =~= before.map_values(|m: ChatMessage| msg_turn(m)).push((MessageRole::User, text@)));
    }

    /// Takes over the conversation of an exchange, kept within the
    /// configured number of messages.
    pub fn adopt_history(&mut self, messages: Vec<ChatMessage>)
        requires
            boundable(messages@, old(self).settings.max_history_messages as nat),
        ensures
            final(self).history@ == bounded_history(messages@, old(self).settings.max_history_messages as nat),
            final(self).settings == old(self).settings,
            final(self).rag_session_id == old(self).rag_session_id,
    {
        let max = self.settings.max_history_messages;
        self.history = bound_history(messages, max);
    }
}

/// A new trace identifier: `trace_` and a random UUID as 32 lowercase hexadecimal
/// digits; fails, with the random source's error, when that source does.
pub fn new_trace_id() -> (r: Result<String, String>)
    ensures
        r matches Ok(id) ==> id@.len() == 38 && id@.take(6) == "trace_"@
            && forall|i: int| 6 <= i < 38 ==> crate::function_calling::is_lower_hex_digit(#[trigger] id@[i]),
        r matches Err(e) ==> crate::encryption::rng_failure(e@),
{
    let u = match crate::function_calling::random_simple_uuid() {
        Ok(u) => u,
        Err(e) => return Err(e),
    };
    let mut id = String::from_str("trace_");
    id.append(u.as_str());
    proof {
        reveal_strlit("trace_");
        assert(id@.take(6) =~= "trace_"@);
        assert forall|i: int| 6 <= i < 38 implies crate::function_calling::is_lower_hex_digit(#[trigger] id@[i]) by {
            assert(id@[i] == u@[i - 6]);
        }
    }
    Ok(id)
}

/// A new memory session identifier: `sess_` and a random UUID as 32 lowercase hexadecimal
/// digits; fails, with the random source's error, when that source does.
pub fn new_session_id() -> (r: Result<String, String>)
    ensures
        r matches Ok(id) ==> id@.len() == 37 && id@.take(5) == "sess_"@
            && forall|i: int| 5 <= i < 37 ==> crate::function_calling::is_lower_hex_digit(#[trigger] id@[i]),
        r matches Err(e) ==> crate::encryption::rng_failure(e@),
{
    let u = match crate::function_calling::random_simple_uuid() {
        Ok(u) => u,
        Err(e) => return Err(e),
    };
    let mut id = String::from_str("sess_");
    id.append(u.as_str());
    proof {
        reveal_strlit("sess_");
        assert(id@.take(5) =~= "sess_"@);
        assert forall|i: int| 5 <= i < 37 implies crate::function_calling::is_lower_hex_digit(#[trigger] id@[i]) by {
            assert(id@[i] == u@[i - 5]);
        }
    }
    Ok(id)
}

/// The answer given without any model, by the fast path.
pub fn fast_path_response(text: &str) -> (r: ChatResponse)
    ensures
        r.text@ == text@,
        r.tools_used@.len() == 0,
        r.model@ == "kernel-fastpath"@,
        r.rag_context is None,
        r.rag_comparison is None,
        r.error is None,
{
    ChatResponse {
        text: String::from_str(text),
        tools_used: Vec::new(),
        model: String::from_str("kernel-fastpath"),
        rag_context: None,
        rag_comparison: None,
        error: None,
    }
}

pub open spec fn use_view(u: ToolUseInfo) -> (Seq<char>, Seq<char>) {
    (u.name@, u.arguments@)
}

/// The answer of an exchange: its text and tools on success; on failure
/// an empty text with the error. Either way it names the model and carries
/// what the interface shows and the comparison of the two readings.
pub fn exchange_response(
    result: Result<crate::function_calling::FunctionCallingResult, String>,
    model: &str,
    rag_context: RagUiContext,
    rag_comparison: Option<RagComparisonContext>,
) -> (r: ChatResponse)
    ensures
        r.model@ == model@,
        r.rag_context == Some(rag_context),
        r.rag_comparison == rag_comparison,
        match result {
            Ok(fc) => r.text == fc.response && r.error is None
                && r.tools_used@.map_values(|u: ToolUseInfo| use_view(u)) == fc.tools_used@.map_values(|t: crate::function_calling::ToolInfo| (t.name@, t.arguments@)),
            Err(e) => r.text@.len() == 0 && r.tools_used@.len() == 0 && r.error == Some(e),
        },
{
    match result {
        Ok(fc) => {
            let mut used: Vec<ToolUseInfo> = Vec::new();
            let mut i: usize = 0;
            while i < fc.tools_used.len()
                invariant
                    i <= fc.tools_used.len(),
                    used@.map_values(|u: ToolUseInfo| use_view(u)) == fc.tools_used@.take(i as int).map_values(|t: crate::function_calling::ToolInfo| (t.name@, t.arguments@)),
                decreases fc.tools_used.len() - i,
            {
                let ghost before = used@;
                let u = ToolUseInfo { name: fc.tools_used[i].name.clone(), arguments: fc.tools_used[i].arguments.clone() };
                used.push(u);
                assert(used@.map_values(|u: ToolUseInfo| use_view(u)) =~= before.map_values(|u: ToolUseInfo| use_view(u)).push(use_view(u)));
                assert(fc.tools_used@.take(i as int + 1).map_values(|t: crate::function_calling::ToolInfo| (t.name@, t.arguments@))
                    =~= fc.tools_used@.take(i as int).map_values(|t: crate::function_calling::ToolInfo| (t.name@, t.arguments@)).push((fc.tools_used@[i as int].name@, fc.tools_used@[i as int].arguments@)));
                i += 1;
            }
            assert(fc.tools_used@.take(fc.tools_used.len() as int) =~= fc.tools_used@);
            ChatResponse {
                text: fc.response,
                tools_used: used,
                model: String::from_str(model),
                rag_context: Some(rag_context),
                rag_comparison,
                error: None,
            }
        },
        Err(e) => ChatResponse {
            text: String::new(),
            tools_used: Vec::new(),
            model: String::from_str(model),
            rag_context: Some(rag_context),
            rag_comparison,
            error: Some(e),
        },
    }
}

/// A conversation kept within its bound holds at most that many messages
/// and starts with the same system messages.
pub proof fn lemma_bounded_history_shape(ms: Seq<ChatMessage>, max: nat)
    requires
        boundable(ms, max),
    ensures
        bounded_history(ms, max).len() <= max || bounded_history(ms, max) == ms,
        bounded_history(ms, max).len() == if ms.len() <= max { ms.len() } else { max },
        forall|i: int| 0 <= i < leading_system(ms) && i < bounded_history(ms, max).len() ==> bounded_history(ms, max)[i] == ms[i],
        ms.len() > max ==> forall|k: int| leading_system(ms) <= k < max ==>
            #[trigger] bounded_history(ms, max)[k] == ms[ms.len() - max + k],
{
    lemma_leading_system_bounds(ms);
}

/// Where model servers are looked for: the local model runner's model list
/// (for the first model it serves), the local Ollama server's tags, and the
/// tags of each configured network host.
pub open spec fn ollama_urls_spec(settings: AppSettings) -> (Option<Seq<char>>, Seq<char>, Seq<Seq<char>>) {
    (
        match first_runner_model(settings.models@, 0) {
            Some(k) => Some(settings.models@[k].base_url@ + "/models"@),
            None => None,
        },
        "http://"@ + settings.ollama.host@ + ":"@ + decimal(settings.ollama.port as nat) + "/api/tags"@,
        string_views(settings.ollama.network_hosts@).map_values(|h: Seq<char>| "http://"@ + h + "/api/tags"@),
    )
}

/// The first model served by the local model runner, at or after `i`.
pub open spec fn first_runner_model(models: Seq<ModelConfig>, i: int) -> Option<int>
    decreases models.len() - i,
{
    if i < 0 || i >= models.len() {
        None
    } else if models[i].provider@ == "docker-model-runner"@ {
        Some(i)
    } else {
        first_runner_model(models, i + 1)
    }
}

/// The addresses probed for model servers.
pub fn ollama_probe_urls(settings: &AppSettings) -> (r: (Option<usize>, Option<String>, String, Vec<String>))
    ensures
        match r.0 {
            Some(j) => first_runner_model(settings.models@, 0) == Some(j as int),
            None => first_runner_model(settings.models@, 0) is None,
        },
        (opt_text(r.1), r.2@, string_views(r.3@)) == ollama_urls_spec(*settings),
{
    let mut runner: Option<usize> = None;
    let mut k: usize = 0;
    while k < settings.models.len() && runner.is_none()
        invariant
            k <= settings.models.len(),
            match runner {
                Some(j) => j < settings.models.len() && first_runner_model(settings.models@, 0) == Some(j as int),
                None => first_runner_model(settings.models@, 0) == first_runner_model(settings.models@, k as int),
            },
        decreases settings.models.len() - k,
    {
        if str_eq(settings.models[k].provider.as_str(), "docker-model-runner") {
            runner = Some(k);
        }
        k += 1;
    }
    let runner_url = match runner {
        Some(k) => {
            let mut u = settings.models[k].base_url.clone();
            u.append("/models");
            Some(u)
        },
        None => None,
    };
    let mut local = String::from_str("http://");
    local.append(settings.ollama.host.as_str());
    local.append(":");
    local.append(decimal_string(settings.ollama.port as usize).as_str());
    local.append("/api/tags");
    let mut hosts: Vec<String> = Vec::new();
    let mut i: usize = 0;
    while i < settings.ollama.network_hosts.len()
        invariant
            i <= settings.ollama.network_hosts.len(),
            string_views(hosts@) == string_views(settings.ollama.network_hosts@).take(i as int).map_values(|h: Seq<char>| "http://"@ + h + "/api/tags"@),
        decreases settings.ollama.network_hosts.len() - i,
    {
        let mut u = String::from_str("http://");
        u.append(settings.ollama.network_hosts[i].as_str());
        u.append("/api/tags");
        let ghost before = hosts@;
        hosts.push(u);
        assert(string_views(hosts@) =~= string_views(before).push(u@));
        assert(string_views(settings.ollama.network_hosts@).take(i as int + 1).map_values(|h: Seq<char>| "http://"@ + h + "/api/tags"@)
            =~= string_views(settings.ollama.network_hosts@).take(i as int).map_values(|h: Seq<char>| "http://"@ + h + "/api/tags"@).push("http://"@ + settings.ollama.network_hosts@[i as int]@ + "/api/tags"@));
        i += 1;
    }
    assert(string_views(settings.ollama.network_hosts@).take(settings.ollama.network_hosts.len() as int) =~= string_views(settings.ollama.network_hosts@));
    (runner, runner_url, local, hosts)
}

/// The local model runner found at a model's address: its host is the
/// address without `http://` and the old engine path, offering that model.
pub fn runner_instance(model: &ModelConfig) -> (r: OllamaInstance)
    ensures
        r.host@ == replace_all(replace_all(model.base_url@, "http://"@, ""@), "/engines/llama.cpp/v1"@, ""@),
        r.models@.len() == 1,
        r.models@[0].name@ == model.model_name@,
        r.models@[0].size is None,
        r.models@[0].modified_at is None,
        r.is_local,
{
    let url = chars_of(model.base_url.as_str());
    let a = replace_chars(&url, "http://", "");
    let b = replace_chars(&a, "/engines/llama.cpp/v1", "");
    OllamaInstance {
        host: string_from_chars(&b),
        models: vec![OllamaModel { name: model.model_name.clone(), size: None, modified_at: None }],
        is_local: true,
    }
}

/// The lowercase name of an intent.
pub open spec fn intent_code(i: IntentCategory) -> Seq<char> {
    match i {
        IntentCategory::Network => "network"@,
        IntentCategory::Performance => "performance"@,
        IntentCategory::Security => "security"@,
        IntentCategory::Maintenance => "maintenance"@,
        IntentCategory::Drivers => "drivers"@,
        IntentCategory::Files => "files"@,
        IntentCategory::Services => "services"@,
        IntentCategory::Updates => "updates"@,
        IntentCategory::GeneralSupport => "generalsupport"@,
    }
}

fn intent_code_str(i: IntentCategory) -> (r: &'static str)
    ensures
        r@ == intent_code(i),
{
    match i {
        IntentCategory::Network => "network",
        IntentCategory::Performance => "performance",
        IntentCategory::Security => "security",
        IntentCategory::Maintenance => "maintenance",
        IntentCategory::Drivers => "drivers",
        IntentCategory::Files => "files",
        IntentCategory::Services => "services",
        IntentCategory::Updates => "updates",
        IntentCategory::GeneralSupport => "generalsupport",
    }
}

/// The two readings of a message side by side, for comparison: the
/// operational one (intent and plan) and the governed one (specialty and
/// decision); their numeric confidences stay with the caller.
#[derive(Debug, Clone)]
pub struct RagComparisonContext {
    pub legacy_intent: String,
    pub legacy_plan: Vec<String>,
    pub rag_specialty: String,
    pub rag_decision: String,
}

/// The comparison is shown only in comparison mode with the retrieval
/// engine on, for a message that was governed.
pub open spec fn comparison_spec(legacy: OperationalAssessment, governed: Option<GovernedContext>, settings: AppSettings, r: Option<RagComparisonContext>) -> bool {
    if !settings.rag_compare_mode || !settings.rag_engine_enabled || governed is None {
        r is None
    } else {
        r matches Some(c) && {
            &&& c.legacy_intent@ == intent_code(legacy.intent)
            &&& string_views(c.legacy_plan@) == string_views(legacy.recommended_plan@)
            &&& c.rag_specialty@ == specialty_printed(governed->0.decision.specialty)
            &&& c.rag_decision@ == decision_mode_code(governed->0.decision.decision_mode)
        }
    }
}

/// The two readings of a message side by side, when comparison is on.
pub fn build_rag_comparison_context(legacy: &OperationalAssessment, governed: Option<&GovernedContext>, settings: &AppSettings) -> (r: Option<RagComparisonContext>)
    ensures
        comparison_spec(*legacy, match governed { Some(g) => Some(*g), None => None }, *settings, r),
{
    if !settings.rag_compare_mode || !settings.rag_engine_enabled {
        return None;
    }
    match governed {
        None => None,
        Some(g) => {
            let mut plan: Vec<String> = Vec::new();
            let mut i: usize = 0;
            while i < legacy.recommended_plan.len()
                invariant
                    i <= legacy.recommended_plan.len(),
                    string_views(plan@) == string_views(legacy.recommended_plan@).take(i as int),
                decreases legacy.recommended_plan.len() - i,
            {
                let ghost before = plan@;
                plan.push(legacy.recommended_plan[i].clone());
                assert(string_views(plan@) =~= string_views(before).push(legacy.recommended_plan@[i as int]@));
                assert(string_views(legacy.recommended_plan@).take(i as int + 1)
                    =~= string_views(legacy.recommended_plan@).take(i as int).push(legacy.recommended_plan@[i as int]@));
                i += 1;
            }
            assert(string_views(legacy.recommended_plan@).take(legacy.recommended_plan.len() as int) =~= string_views(legacy.recommended_plan@));
            Some(RagComparisonContext {
                legacy_intent: String::from_str(intent_code_str(legacy.intent)),
                legacy_plan: plan,
                rag_specialty: String::from_str(specialty_printed_str(&g.decision.specialty)),
                rag_decision: String::from_str(decision_mode_code_str(&g.decision.decision_mode)),
            })
        },
    }
}

} // verus!
