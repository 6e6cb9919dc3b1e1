//! What the user commands report about models, accounts and sessions.

use vstd::prelude::*;
use crate::settings::{AppSettings, ModelConfig, QuickCheck, QuickCheckResult, QuickCheckType, SupportProfile, UserAccount, UserRole, unlocked_at};
use crate::text::{chars_of, err_msg, join_seqs, join_strings, str_eq, string_from_chars, string_views, utf8_len, utf8_width, utf8_len_below, char_width_pub};
use crate::verification::ToolResult;

verus! {

/// A model as the model picker shows it.
#[derive(Debug, Clone)]
pub struct ModelInfo {
    pub id: String,
    pub name: String,
    pub provider: String,
    pub has_api_key: bool,
    pub is_local: bool,
    pub selected: bool,
}

/// Whether MegaBoss mode has a password and is unlocked.
#[derive(Debug, Clone)]
pub struct MegabossStatus {
    pub password_set: bool,
    pub unlocked: bool,
    pub unlock_until_epoch: Option<i64>,
}

/// The sign-in state as the user sees it; the user name is masked.
#[derive(Debug, Clone)]
pub struct AuthStatus {
    pub is_authenticated: bool,
    pub username: Option<String>,
    pub profile: Option<SupportProfile>,
    pub role: String,
    pub tecnico_critical_unlocked: bool,
    pub tecnico_unlock_until_epoch: Option<i64>,
}

/// An account as the account list shows it.
#[derive(Debug, Clone)]
pub struct SupportUserInfo {
    pub username: String,
    pub profile: SupportProfile,
    pub active: bool,
}

/// A model entry: identifier, name, provider, whether a key is stored,
/// local, selected.
pub open spec fn model_info_spec(m: ModelConfig, selected: Seq<char>) -> (Seq<char>, Seq<char>, Seq<char>, bool, bool, bool) {
    (m.id@, m.name@, m.provider@, m.api_key is Some, m.is_local, m.id@ == selected)
}

/// A model entry as plain values.
pub open spec fn model_info_view(i: ModelInfo) -> (Seq<char>, Seq<char>, Seq<char>, bool, bool, bool) {
    (i.id@, i.name@, i.provider@, i.has_api_key, i.is_local, i.selected)
}

/// The models as the model picker lists them, in order.
pub fn model_infos(settings: &AppSettings) -> (r: Vec<ModelInfo>)
    ensures
        r@.len() == settings.models@.len(),
        forall|k: int| 0 <= k < r@.len() ==> model_info_view(#[trigger] r@[k]) == model_info_spec(settings.models@[k], settings.selected_model@),
{
    let mut out: Vec<ModelInfo> = Vec::new();
    let mut k: usize = 0;
    while k < settings.models.len()
        invariant
            k <= settings.models.len(),
            out@.len() == k,
            forall|j: int| 0 <= j < k ==> model_info_view(#[trigger] out@[j]) == model_info_spec(settings.models@[j], settings.selected_model@),
        decreases settings.models.len() - k,
    {
        let m = &settings.models[k];
        let info = ModelInfo {
            id: m.id.clone(),
            name: m.name.clone(),
            provider: m.provider.clone(),
            has_api_key: m.api_key.is_some(),
            is_local: m.is_local,
            selected: str_eq(m.id.as_str(), settings.selected_model.as_str()),
        };
        out.push(info);
        k += 1;
    }
    out
}

/// The MegaBoss status at time `now`.
pub fn megaboss_status_at(settings: &AppSettings, now: i64) -> (r: MegabossStatus)
    ensures
        r.password_set == settings.megaboss_password_encrypted is Some,
        r.unlocked == unlocked_at(settings.megaboss_unlock_until_epoch, now),
        r.unlock_until_epoch == settings.megaboss_unlock_until_epoch,
{
    MegabossStatus {
        password_set: settings.megaboss_password_encrypted.is_some(),
        unlocked: settings.megaboss_unlocked_at(now),
        unlock_until_epoch: settings.megaboss_unlock_until_epoch,
    }
}

/// Whether a user name can be masked: it takes at most two bytes, or its
/// first two bytes are whole characters.
pub open spec fn maskable(u: Seq<char>) -> bool {
    utf8_len(u) <= 2 || utf8_width(u[0]) == 2 || (utf8_width(u[0]) == 1 && utf8_width(u[1]) == 1)
}

/// A masked user name: `**` for a name of at most two bytes, else its first
/// two bytes and `***`.
pub open spec fn masked(u: Seq<char>) -> Seq<char> {
    if utf8_len(u) <= 2 {
        "**"@
    } else if utf8_width(u[0]) == 2 {
        u.take(1) + "***"@
    } else {
        u.take(2) + "***"@
    }
}

/// Whether a user name can be masked.
pub fn can_mask_username(username: &str) -> (r: bool)
    ensures
        r == maskable(username@),
{
    let cs = chars_of(username);
    if !utf8_len_below(&cs, 3) {
        proof { crate::text::lemma_utf8_len_positive(cs@); }
        let w0 = char_width_pub(cs[0]);
        if w0 == 2 {
            return true;
        }
        if w0 == 1 {
            proof { crate::text::lemma_utf8_len_second(cs@); }
            return char_width_pub(cs[1]) == 1;
        }
        return false;
    }
    true
}

/// Masks a user name for display.
pub fn mask_username(username: &str) -> (r: String)
    requires
        maskable(username@),
    ensures
        r@ == masked(username@),
{
    let cs = chars_of(username);
    if utf8_len_below(&cs, 3) {
        return String::from_str("**");
    }
    proof { crate::text::lemma_utf8_len_positive(cs@); }
    let take = if char_width_pub(cs[0]) == 2 { 1 } else { 2 };
    let mut prefix: Vec<char> = Vec::new();
    let mut i: usize = 0;
    proof {
        if take == 2 { crate::text::lemma_utf8_len_second(cs@); }
    }
    while i < take
        invariant
            i <= take,
            take <= cs.len(),
            prefix@ == cs@.take(i as int),
        decreases take - i,
    {
        prefix.push(cs[i]);
        assert(cs@.take(i as int + 1) =~= cs@.take(i as int).push(cs@[i as int]));
        i += 1;
    }
    let mut out = string_from_chars(&prefix);
    out.append("***");
    out
}

/// The name of a role as it is written for the user.
pub open spec fn role_name(r: UserRole) -> Seq<char> {
    match r {
        UserRole::Owner => "Owner"@,
        UserRole::PowerUser => "PowerUser"@,
        UserRole::Viewer => "Viewer"@,
    }
}

fn role_text(r: UserRole) -> (s: String)
    ensures
        s@ == role_name(r),
{
    match r {
        UserRole::Owner => String::from_str("Owner"),
        UserRole::PowerUser => String::from_str("PowerUser"),
        UserRole::Viewer => String::from_str("Viewer"),
    }
}

/// The sign-in state at time `now`, with the user name masked.
pub fn auth_status_at(settings: &AppSettings, now: i64) -> (r: AuthStatus)
    requires
        settings.auth.current_username matches Some(u) ==> maskable(u@),
    ensures
        r.is_authenticated == settings.auth.is_authenticated,
        match settings.auth.current_username {
            Some(u) => r.username matches Some(m) && m@ == masked(u@),
            None => r.username is None,
        },
        r.profile == settings.auth.current_profile,
        r.role@ == role_name(settings.user_role),
        r.tecnico_critical_unlocked == unlocked_at(settings.auth.tecnico_critical_unlock_until_epoch, now),
        r.tecnico_unlock_until_epoch == settings.auth.tecnico_critical_unlock_until_epoch,
{
    let unlocked = match settings.auth.tecnico_critical_unlock_until_epoch {
        Some(until) => until > now,
        None => false,
    };
    let username = match &settings.auth.current_username {
        Some(u) => Some(mask_username(u.as_str())),
        None => None,
    };
    AuthStatus {
        is_authenticated: settings.auth.is_authenticated,
        username,
        profile: settings.auth.current_profile,
        role: role_text(settings.user_role),
        tecnico_critical_unlocked: unlocked,
        tecnico_unlock_until_epoch: settings.auth.tecnico_critical_unlock_until_epoch,
    }
}

/// The accounts as a superuser sees them; others are refused.
pub fn support_users(settings: &AppSettings) -> (r: Result<Vec<SupportUserInfo>, String>)
    ensures
        settings.auth.current_profile != Some(SupportProfile::Superusuario) ==> err_msg(r, "Solo el superusuario puede listar usuarios"@),
        settings.auth.current_profile == Some(SupportProfile::Superusuario) ==> (r matches Ok(list) && list@.len() == settings.users@.len()
            && forall|k: int| 0 <= k < list@.len() ==> (#[trigger] list@[k]).username@ == settings.users@[k].username@
                && list@[k].profile == settings.users@[k].profile && list@[k].active == settings.users@[k].active),
{
    if !settings.is_superuser() {
        return Err(String::from_str("Solo el superusuario puede listar usuarios"));
    }
    let mut out: Vec<SupportUserInfo> = Vec::new();
    let mut k: usize = 0;
    while k < settings.users.len()
        invariant
            k <= settings.users.len(),
            out@.len() == k,
            forall|j: int| 0 <= j < k ==> (#[trigger] out@[j]).username@ == settings.users@[j].username@
                && out@[j].profile == settings.users@[j].profile && out@[j].active == settings.users@[j].active,
        decreases settings.users.len() - k,
    {
        let u = &settings.users[k];
        out.push(SupportUserInfo { username: u.username.clone(), profile: u.profile, active: u.active });
        k += 1;
    }
    Ok(out)
}

/// The length of a MegaBoss unlock: the requested minutes, twenty by
/// default, clamped to 1..=240.
pub fn megaboss_unlock_minutes(minutes: Option<i64>) -> (r: i64)
    ensures
        r == ({
            let m = match minutes { Some(m) => m, None => 20 };
            if m < 1 { 1 } else if m > 240 { 240 } else { m }
        }),
{
    let m = match minutes {
        Some(m) => m,
        None => 20,
    };
    if m < 1 { 1 } else if m > 240 { 240 } else { m }
}

/// The length of a technician's critical unlock: the requested minutes,
/// fifteen by default, clamped to 1..=120.
pub fn tecnico_unlock_minutes(minutes: Option<i64>) -> (r: i64)
    ensures
        r == ({
            let m = match minutes { Some(m) => m, None => 15 };
            if m < 1 { 1 } else if m > 120 { 120 } else { m }
        }),
{
    let m = match minutes {
        Some(m) => m,
        None => 15,
    };
    if m < 1 { 1 } else if m > 120 { 120 } else { m }
}

/// Chat commands need a signed-in session.
pub fn require_authenticated(settings: &AppSettings) -> (r: Result<(), String>)
    ensures
        settings.auth.is_authenticated ==> r is Ok,
        !settings.auth.is_authenticated ==> err_msg(r, "Debe iniciar sesion para usar KernelIA"@),
{
    if settings.auth.is_authenticated {
        Ok(())
    } else {
        Err(String::from_str("Debe iniciar sesion para usar KernelIA"))
    }
}

/// Account administration needs a signed-in superuser.
pub fn require_superuser_session(settings: &AppSettings) -> (r: Result<(), String>)
    ensures
        settings.auth.is_authenticated && settings.auth.current_profile == Some(SupportProfile::Superusuario) ==> r is Ok,
        !(settings.auth.is_authenticated && settings.auth.current_profile == Some(SupportProfile::Superusuario))
            ==> err_msg(r, "ACCESO_DENEGADO: Requiere perfil de Superusuario autenticado."@),
{
    if settings.auth.is_authenticated && settings.is_superuser() {
        Ok(())
    } else {
        Err(String::from_str("ACCESO_DENEGADO: Requiere perfil de Superusuario autenticado."))
    }
}

/// The critical unlock applies to signed-in technicians only.
pub fn require_tecnico_session(settings: &AppSettings) -> (r: Result<(), String>)
    ensures
        settings.auth.is_authenticated && settings.auth.current_profile == Some(SupportProfile::Tecnico) ==> r is Ok,
        !(settings.auth.is_authenticated && settings.auth.current_profile == Some(SupportProfile::Tecnico))
            ==> err_msg(r, "Esta accion solo aplica para sesiones Tecnico autenticadas"@),
{
    let tecnico = match settings.auth.current_profile {
        Some(SupportProfile::Tecnico) => true,
        _ => false,
    };
    if settings.auth.is_authenticated && tecnico {
        Ok(())
    } else {
        Err(String::from_str("Esta accion solo aplica para sesiones Tecnico autenticadas"))
    }
}


// ---------------------------------------------------------------------------
// Tools and quick checks
// ---------------------------------------------------------------------------

/// The refusal of a tool that needs MegaBoss privilege.
pub open spec fn megaboss_required_message() -> Seq<char> {
    "Privilegio MegaBoss requerido. Desbloquea con contraseña en Configuración para ejecutar comandos de máximo privilegio."@
}

/// Whether a tool may run: only in a signed-in session; a tool reserved to
/// the owner is refused (as a failed result) unless MegaBoss mode is
/// unlocked at `now`; otherwise nothing stands in the way.
pub fn tool_gate(settings: &AppSettings, name: &str, owner_only: bool, now: i64) -> (r: Result<Option<ToolResult>, String>)
    ensures
        !settings.auth.is_authenticated ==> err_msg(r, "Debe iniciar sesion antes de ejecutar herramientas"@),
        settings.auth.is_authenticated && owner_only && !unlocked_at(settings.megaboss_unlock_until_epoch, now) ==>
            (r matches Ok(Some(t)) && t.tool_name@ == name@ && !t.success && t.output@.len() == 0
                && (t.error matches Some(e) && e@ == megaboss_required_message())),
        settings.auth.is_authenticated && !(owner_only && !unlocked_at(settings.megaboss_unlock_until_epoch, now)) ==> r matches Ok(None),
{
    if !settings.auth.is_authenticated {
        return Err(String::from_str("Debe iniciar sesion antes de ejecutar herramientas"));
    }
    if owner_only && !settings.megaboss_unlocked_at(now) {
        return Ok(Some(ToolResult {
            tool_name: String::from_str(name),
            success: false,
            output: String::new(),
            error: Some(String::from_str("Privilegio MegaBoss requerido. Desbloquea con contraseña en Configuración para ejecutar comandos de máximo privilegio.")),
        }));
    }
    Ok(None)
}

/// The first quick check at or after `i` with identifier `id`.
pub open spec fn first_check(checks: Seq<QuickCheck>, id: Seq<char>, i: int) -> Option<int>
    decreases checks.len() - i,
{
    if i < 0 || i >= checks.len() {
        None
    } else if checks[i].id@ == id {
        Some(i)
    } else {
        first_check(checks, id, i + 1)
    }
}

/// Finds the quick check to run: only in a signed-in session, and it must
/// exist.
pub fn resolve_quick_check(settings: &AppSettings, quick_check_id: &str) -> (r: Result<usize, String>)
    ensures
        !settings.auth.is_authenticated ==> err_msg(r, "Debe iniciar sesion antes de ejecutar quick checks"@),
        settings.auth.is_authenticated ==> match first_check(settings.quick_checks@, quick_check_id@, 0) {
            Some(k) => r == Ok::<usize, String>(k as usize),
            None => err_msg(r, "Quick Check '"@ + quick_check_id@ + "' no encontrado."@),
        },
{
    if !settings.auth.is_authenticated {
        return Err(String::from_str("Debe iniciar sesion antes de ejecutar quick checks"));
    }
    let mut k: usize = 0;
    while k < settings.quick_checks.len()
        invariant
            k <= settings.quick_checks.len(),
            settings.auth.is_authenticated,
            first_check(settings.quick_checks@, quick_check_id@, 0) == first_check(settings.quick_checks@, quick_check_id@, k as int),
        decreases settings.quick_checks.len() - k,
    {
        if str_eq(settings.quick_checks[k].id.as_str(), quick_check_id) {
            return Ok(k);
        }
        k += 1;
    }
    let mut e = String::from_str("Quick Check '");
    e.append(quick_check_id);
    e.append("' no encontrado.");
    Err(e)
}

/// An argument given under either of its two names (snake case first,
/// then camel case); one of them is required.
pub fn first_given(snake: Option<String>, camel: Option<String>, field: &str) -> (r: Result<String, String>)
    ensures
        snake matches Some(a) ==> r matches Ok(x) && x@ == a@,
        snake is None ==> (camel matches Some(b) ==> r matches Ok(x) && x@ == b@),
        snake is None && camel is None ==> err_msg(r, "API_VALIDATION: '"@ + field@ + "' es requerido"@),
{
    match snake {
        Some(a) => Ok(a),
        None => match camel {
            Some(b) => Ok(b),
            None => {
                let mut e = String::from_str("API_VALIDATION: '");
                e.append(field);
                e.append("' es requerido");
                Err(e)
            },
        },
    }
}

/// The quick checks shown to a signed-in user: those whose permissions the
/// role holds (`permitted` tells, check by check).
pub fn visible_quick_checks(settings: &AppSettings, permitted: &Vec<bool>) -> (r: Result<Vec<usize>, String>)
    ensures
        !settings.auth.is_authenticated ==> err_msg(r, "Debe iniciar sesion antes de consultar quick checks"@),
        settings.auth.is_authenticated ==> (r matches Ok(ks) && ks@.map_values(|k: usize| k as int) == permitted_indices(permitted@, settings.quick_checks@.len())),
{
    if !settings.auth.is_authenticated {
        return Err(String::from_str("Debe iniciar sesion antes de consultar quick checks"));
    }
    let mut out: Vec<usize> = Vec::new();
    let mut i: usize = 0;
    while i < settings.quick_checks.len()
        invariant
            i <= settings.quick_checks.len(),
            out@.map_values(|k: usize| k as int) == permitted_indices(permitted@, i as nat),
        decreases settings.quick_checks.len() - i,
    {
        if i < permitted.len() && permitted[i] {
            let ghost before = out@;
            out.push(i);
            assert(out@.map_values(|k: usize| k as int) =~= before.map_values(|k: usize| k as int).push(i as int));
        }
        i += 1;
    }
    Ok(out)
}

/// The places, below `n`, whose flag is set (a missing flag counts as unset).
pub open spec fn permitted_indices(flags: Seq<bool>, n: nat) -> Seq<int>
    decreases n,
{
    if n == 0 {
        Seq::empty()
    } else {
        let prev = permitted_indices(flags, (n - 1) as nat);
        if n - 1 < flags.len() && flags[n - 1] { prev.push(n - 1) } else { prev }
    }
}

/// One step of a quick check's pipeline: refused for want of MegaBoss
/// privilege, or run with this result.
#[derive(Debug, Clone)]
pub enum PipelineStep {
    Blocked,
    Ran(ToolResult),
}

/// The tool at a place of the pipeline (empty past its end).
pub open spec fn tool_at(qc: QuickCheck, i: int) -> Seq<char> {
    if 0 <= i < qc.tool_pipeline@.len() { qc.tool_pipeline@[i]@ } else { Seq::empty() }
}

/// The pipeline so far: the outputs of the steps that succeeded, or the
/// error of the first step that did not.
pub open spec fn pipeline_fold(qc: QuickCheck, steps: Seq<PipelineStep>, n: nat) -> Result<Seq<Seq<char>>, Seq<char>>
    decreases n,
{
    if n == 0 {
        Ok(Seq::empty())
    } else {
        match pipeline_fold(qc, steps, (n - 1) as nat) {
            Err(e) => Err(e),
            Ok(outs) => match steps[n - 1] {
                PipelineStep::Blocked => Err("Privilegio MegaBoss requerido para este Quick Check."@),
                PipelineStep::Ran(t) => if t.success {
                    Ok(outs.push(t.output@))
                } else {
                    Err(match t.error { Some(e) => e@, None => "Fallo en tool: "@ + tool_at(qc, n - 1) })
                },
            },
        }
    }
}

/// The result of a quick check: a prompt check hands its prompt to the
/// chat; a tool check succeeds with the outputs of its steps separated by
/// `---` lines, or fails with the error of its first failed step.
pub open spec fn quick_check_result_spec(qc: QuickCheck, steps: Seq<PipelineStep>, r: QuickCheckResult) -> bool {
    &&& r.id@ == qc.id@
    &&& r.label@ == qc.label@
    &&& match qc.kind {
        QuickCheckType::LlmPrompt => {
            &&& r.success
            &&& r.output@ == (match qc.prompt { Some(p) => p@, None => Seq::empty() })
            &&& r.error is None
            &&& r.kind@ == "llm_prompt"@
        },
        QuickCheckType::DirectTool => {
            &&& r.kind@ == "direct_tool"@
            &&& match pipeline_fold(qc, steps, steps.len()) {
                Ok(outs) => r.success && r.output@ == join_seqs(outs, "\n---\n"@) && r.error is None,
                Err(e) => !r.success && r.output@.len() == 0 && (r.error matches Some(x) && x@ == e),
            }
        },
    }
}

/// The result of a quick check from the steps its pipeline ran, in order.
pub fn quick_check_result(qc: &QuickCheck, steps: &Vec<PipelineStep>) -> (r: QuickCheckResult)
    ensures
        quick_check_result_spec(*qc, steps@, r),
{
    match qc.kind {
        QuickCheckType::LlmPrompt => {
            let output = match &qc.prompt {
                Some(p) => p.clone(),
                None => String::new(),
            };
            QuickCheckResult {
                id: qc.id.clone(),
                label: qc.label.clone(),
                success: true,
                output,
                error: None,
                kind: String::from_str("llm_prompt"),
            }
        },
        QuickCheckType::DirectTool => {
            let mut outputs: Vec<String> = Vec::new();
            assert(string_views(outputs@) =~= Seq::<Seq<char>>::empty());
            let mut i: usize = 0;
            while i < steps.len()
                invariant
                    i <= steps.len(),
                    qc.kind == QuickCheckType::DirectTool,
                    pipeline_fold(*qc, steps@, i as nat) == Ok::<Seq<Seq<char>>, Seq<char>>(string_views(outputs@)),
                decreases steps.len() - i,
            {
                match &steps[i] {
                    PipelineStep::Blocked => {
                        proof {
                            assert(steps@[i as int] is Blocked);
                            assert(pipeline_fold(*qc, steps@, (i + 1) as nat) == Err::<Seq<Seq<char>>, Seq<char>>("Privilegio MegaBoss requerido para este Quick Check."@));
                            lemma_fold_stays_failed(*qc, steps@, (i + 1) as nat, steps@.len());
                        }
                        return QuickCheckResult {
                            id: qc.id.clone(),
                            label: qc.label.clone(),
                            success: false,
                            output: String::new(),
                            error: Some(String::from_str("Privilegio MegaBoss requerido para este Quick Check.")),
                            kind: String::from_str("direct_tool"),
                        };
                    },
                    PipelineStep::Ran(t) => {
                        if t.success {
                            let ghost before = outputs@;
                            let o = t.output.clone();
                            outputs.push(o);
                            assert(string_views(outputs@) =~= string_views(before).push(o@));
                        } else {
                            let e = match &t.error {
                                Some(e) => e.clone(),
                                None => {
                                    let mut m = String::from_str("Fallo en tool: ");
                                    if i < qc.tool_pipeline.len() {
                                        m.append(qc.tool_pipeline[i].as_str());
                                    }
                                    m
                                },
                            };
                            proof {
                                assert(steps@[i as int] == PipelineStep::Ran(*t));
                                assert(e@ == (match t.error { Some(x) => x@, None => "Fallo en tool: "@ + tool_at(*qc, i as int) }));
                                assert(pipeline_fold(*qc, steps@, (i + 1) as nat) == Err::<Seq<Seq<char>>, Seq<char>>(e@));
                                lemma_fold_stays_failed(*qc, steps@, (i + 1) as nat, steps@.len());
                            }
                            return QuickCheckResult {
                                id: qc.id.clone(),
                                label: qc.label.clone(),
                                success: false,
                                output: String::new(),
                                error: Some(e),
                                kind: String::from_str("direct_tool"),
                            };
                        }
                    },
                }
                i += 1;
            }
            QuickCheckResult {
                id: qc.id.clone(),
                label: qc.label.clone(),
                success: true,
                output: join_strings(&outputs, "\n---\n"),
                error: None,
                kind: String::from_str("direct_tool"),
            }
        },
    }
}

/// Once a pipeline failed, later steps do not change its error.
proof fn lemma_fold_stays_failed(qc: QuickCheck, steps: Seq<PipelineStep>, m: nat, n: nat)
    requires
        m <= n,
        pipeline_fold(qc, steps, m) is Err,
    ensures
        pipeline_fold(qc, steps, n) == pipeline_fold(qc, steps, m),
    decreases n - m,
{
    if m < n {
        lemma_fold_stays_failed(qc, steps, m, (n - 1) as nat);
    }
}

} // verus!
