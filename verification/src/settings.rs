//! Application settings: models, support accounts and their sign-in state,
//! and the pre-configured quick checks.

use vstd::prelude::*;
use vstd::utf8::encode_utf8;
use crate::clock::now_epoch;
use crate::encryption::{gcm_max_input, machine_key_spec, sealable, opened_by, rng_failure, sealed_text, seals, Encryption, NONCE_LEN};
use crate::text::{
    chars_of, eq_ignore_ascii_case, eq_ignore_ascii_case_spec, string_from_chars, str_eq, trim, trim_seq,
    utf8_len, utf8_len_below, ascii_lower, err_msg, string_views, seq_contains, contains, replace_all, replace_chars,
    lowercase_of, to_lowercase,
};

verus! {

// ---------------------------------------------------------------------------
// Quick checks
// ---------------------------------------------------------------------------

/// How a quick check runs: straight through a tool pipeline, or as a prompt
/// to the model.
#[derive(Debug, Clone, Copy, PartialEq, Eq, Structural)]
pub enum QuickCheckType {
    DirectTool,
    LlmPrompt,
}

/// A pre-configured diagnostic that the user starts with one click.
#[derive(Debug, Clone)]
pub struct QuickCheck {
    pub id: String,
    pub label: String,
    pub description: String,
    pub icon: String,
    pub color: String,
    pub kind: QuickCheckType,
    pub required_permissions: Vec<String>,
    pub prompt: Option<String>,
    pub tool_pipeline: Vec<String>,
}

/// The outcome of running a quick check.
#[derive(Debug, Clone)]
pub struct QuickCheckResult {
    pub id: String,
    pub label: String,
    pub success: bool,
    pub output: String,
    pub error: Option<String>,
    pub kind: String,
}

// ---------------------------------------------------------------------------
// Accounts and roles
// ---------------------------------------------------------------------------

/// The support profile of an account.
#[derive(Debug, Clone, Copy, PartialEq, Eq, Structural)]
pub enum SupportProfile {
    Superusuario,
    Soporte1,
    Tecnico,
}

/// The tool-permission role that a session runs with.
#[derive(Debug, Clone, Copy, PartialEq, Eq, Structural)]
pub enum UserRole {
    Owner,
    PowerUser,
    Viewer,
}

/// The role a support profile grants.
pub open spec fn role_of(p: SupportProfile) -> UserRole {
    match p {
        SupportProfile::Superusuario => UserRole::Owner,
        SupportProfile::Soporte1 => UserRole::PowerUser,
        SupportProfile::Tecnico => UserRole::Viewer,
    }
}

impl SupportProfile {
    /// The role this profile grants.
    pub fn to_rbac_role(&self) -> (r: UserRole)
        ensures
            r == role_of(*self),
    {
        match self {
            SupportProfile::Superusuario => UserRole::Owner,
            SupportProfile::Soporte1 => UserRole::PowerUser,
            SupportProfile::Tecnico => UserRole::Viewer,
        }
    }
}

/// A support account; its password is stored encrypted.
#[derive(Debug, Clone)]
pub struct UserAccount {
    pub username: String,
    pub password_encrypted: String,
    pub profile: SupportProfile,
    pub active: bool,
}

/// Who is signed in, and until when a technician's critical elevation lasts.
#[derive(Debug, Clone)]
pub struct AuthState {
    pub is_authenticated: bool,
    pub current_username: Option<String>,
    pub current_profile: Option<SupportProfile>,
    pub tecnico_critical_unlock_until_epoch: Option<i64>,
}

/// Nobody is signed in and no elevation is active.
pub open spec fn signed_out(a: AuthState) -> bool {
    &&& !a.is_authenticated
    &&& a.current_username is None
    &&& a.current_profile is None
    &&& a.tecnico_critical_unlock_until_epoch is None
}

impl Default for AuthState {
    fn default() -> (res: Self)
        ensures
            signed_out(res),
    {
        AuthState {
            is_authenticated: false,
            current_username: None,
            current_profile: None,
            tecnico_critical_unlock_until_epoch: None,
        }
    }
}

// ---------------------------------------------------------------------------
// Models
// ---------------------------------------------------------------------------

/// A chat model and how to reach it.
#[derive(Debug, Clone)]
pub struct ModelConfig {
    pub id: String,
    pub name: String,
    pub provider: String,
    pub base_url: String,
    pub api_key: Option<String>,
    pub model_name: String,
    pub supports_function_calling: bool,
    pub is_local: bool,
    pub max_tokens: u32,
}

/// Where Ollama servers are looked for.
#[derive(Debug, Clone)]
pub struct OllamaConfig {
    pub enabled: bool,
    pub host: String,
    pub port: u16,
    pub model: String,
    pub network_hosts: Vec<String>,
}

impl Default for OllamaConfig {
    fn default() -> (res: Self)
        ensures
            res.enabled,
            res.host@ == "localhost"@,
            res.port == 11434,
            res.model@ == "qwen2.5:3b"@,
            res.network_hosts.len() == 2,
            res.network_hosts[0]@ == "192.168.1.101:11434"@,
            res.network_hosts[1]@ == "192.168.1.102:11434"@,
    {
        OllamaConfig {
            enabled: true,
            host: String::from_str("localhost"),
            port: 11434,
            model: String::from_str("qwen2.5:3b"),
            network_hosts: vec![String::from_str("192.168.1.101:11434"), String::from_str("192.168.1.102:11434")],
        }
    }
}

// ---------------------------------------------------------------------------
// Settings
// ---------------------------------------------------------------------------

/// The settings of the application.
#[derive(Debug, Clone)]
pub struct AppSettings {
    pub version: String,
    pub first_run: bool,
    pub selected_model: String,
    pub rag_engine_enabled: bool,
    pub rag_compare_mode: bool,
    pub rag_debug_panel: bool,
    pub rag_show_confidence_badge: bool,
    pub models: Vec<ModelConfig>,
    pub ollama: OllamaConfig,
    pub language: String,
    pub theme: String,
    pub max_history_messages: usize,
    pub confirm_dangerous_actions: bool,
    pub user_role: UserRole,
    pub users: Vec<UserAccount>,
    pub auth: AuthState,
    pub tecnico_critical_password_encrypted: Option<String>,
    pub megaboss_password_encrypted: Option<String>,
    pub megaboss_unlock_until_epoch: Option<i64>,
    pub quick_checks: Vec<QuickCheck>,
}

/// Two settings agree on everything but the sign-in state and the role.
pub open spec fn same_but_session(a: AppSettings, b: AppSettings) -> bool {
    &&& a.version == b.version
    &&& a.first_run == b.first_run
    &&& a.selected_model == b.selected_model
    &&& a.rag_engine_enabled == b.rag_engine_enabled
    &&& a.rag_compare_mode == b.rag_compare_mode
    &&& a.rag_debug_panel == b.rag_debug_panel
    &&& a.rag_show_confidence_badge == b.rag_show_confidence_badge
    &&& a.models == b.models
    &&& a.ollama == b.ollama
    &&& a.language == b.language
    &&& a.theme == b.theme
    &&& a.max_history_messages == b.max_history_messages
    &&& a.confirm_dangerous_actions == b.confirm_dangerous_actions
    &&& a.users == b.users
    &&& a.tecnico_critical_password_encrypted == b.tecnico_critical_password_encrypted
    &&& a.megaboss_password_encrypted == b.megaboss_password_encrypted
    &&& a.megaboss_unlock_until_epoch == b.megaboss_unlock_until_epoch
    &&& a.quick_checks == b.quick_checks
}

/// Two settings agree on everything but the accounts.
pub open spec fn same_but_users(a: AppSettings, b: AppSettings) -> bool {
    &&& a.version == b.version
    &&& a.first_run == b.first_run
    &&& a.selected_model == b.selected_model
    &&& a.rag_engine_enabled == b.rag_engine_enabled
    &&& a.rag_compare_mode == b.rag_compare_mode
    &&& a.rag_debug_panel == b.rag_debug_panel
    &&& a.rag_show_confidence_badge == b.rag_show_confidence_badge
    &&& a.models == b.models
    &&& a.ollama == b.ollama
    &&& a.language == b.language
    &&& a.theme == b.theme
    &&& a.max_history_messages == b.max_history_messages
    &&& a.confirm_dangerous_actions == b.confirm_dangerous_actions
    &&& a.user_role == b.user_role
    &&& a.auth == b.auth
    &&& a.tecnico_critical_password_encrypted == b.tecnico_critical_password_encrypted
    &&& a.megaboss_password_encrypted == b.megaboss_password_encrypted
    &&& a.megaboss_unlock_until_epoch == b.megaboss_unlock_until_epoch
    &&& a.quick_checks == b.quick_checks
}

/// The session of `s` is the one of account `u`.
pub open spec fn signed_in_as(s: AppSettings, u: UserAccount) -> bool {
    &&& s.auth.is_authenticated
    &&& s.auth.current_username matches Some(n) && n@ == u.username@
    &&& s.auth.current_profile == Some(u.profile)
    &&& s.auth.tecnico_critical_unlock_until_epoch is None
    &&& s.user_role == role_of(u.profile)
}

/// An account may sign in under `name`: it is active and its name equals
/// `name` up to ASCII case.
pub open spec fn login_match(u: UserAccount, name: Seq<char>) -> bool {
    u.active && eq_ignore_ascii_case_spec(u.username@, name)
}

/// The first account at or after `i` that may sign in under `name`.
pub open spec fn first_login_match(users: Seq<UserAccount>, name: Seq<char>, i: int) -> Option<int>
    decreases users.len() - i,
{
    if i < 0 || i >= users.len() {
        None
    } else if login_match(users[i], name) {
        Some(i)
    } else {
        first_login_match(users, name, i + 1)
    }
}

/// Whether a decrypted secret is the given password.
pub open spec fn decrypts_to(decrypted: Result<String, String>, password: Seq<char>) -> bool {
    decrypted matches Ok(p) && p@ == password
}

/// The message of a failed sign-in.
pub open spec fn bad_credentials() -> Seq<char> {
    "Credenciales invalidas"@
}

/// The accounts whose name does not equal `name` up to ASCII case.
pub open spec fn remove_matching(users: Seq<UserAccount>, name: Seq<char>) -> Seq<UserAccount>
    decreases users.len(),
{
    if users.len() == 0 {
        users
    } else if eq_ignore_ascii_case_spec(users.last().username@, name) {
        remove_matching(users.drop_last(), name)
    } else {
        remove_matching(users.drop_last(), name).push(users.last())
    }
}

/// Some account's name equals `name` up to ASCII case.
pub open spec fn name_taken(users: Seq<UserAccount>, name: Seq<char>) -> bool {
    exists|i: int| 0 <= i < users.len() && eq_ignore_ascii_case_spec(#[trigger] users[i].username@, name)
}

/// The account a superuser creates: the trimmed name, the profile, active.
pub open spec fn created_account(u: UserAccount, username: Seq<char>, profile: SupportProfile) -> bool {
    u.username@ == trim_seq(username) && u.profile == profile && u.active
}

/// The secret a decryption gives back, if it gives one.
pub open spec fn secret_of(d: Result<String, String>) -> Option<String> {
    match d {
        Ok(s) => Some(s),
        Err(_) => None,
    }
}

/// `r` is the answer to whether `password` is the secret stored in `c`, as
/// a decryption of `c` under `key` tells it.
pub open spec fn password_check(key: Seq<u8>, c: Seq<char>, password: Seq<char>, r: bool) -> bool {
    exists|d: Result<String, String>| #[trigger] opened_by(key, c, d) && r == decrypts_to(d, password)
}

/// `r` is what a decryption of `c` under `key` gives back, when it succeeds.
pub open spec fn secret_check(key: Seq<u8>, c: Seq<char>, r: Option<String>) -> bool {
    exists|d: Result<String, String>| #[trigger] opened_by(key, c, d) && r == secret_of(d)
}

/// On one machine, a stored password answers for itself alone: checking a
/// password against what this machine sealed from `p` (short enough to
/// seal) says yes exactly for `p`.
pub proof fn lemma_stored_password_round_trip(
    host: Result<String, String>,
    nonce: Seq<u8>,
    p: Seq<char>,
    q: Seq<char>,
    r: bool,
)
    requires
        nonce.len() == NONCE_LEN,
        sealable(p),
        password_check(machine_key_spec(host), sealed_text(machine_key_spec(host), nonce, p), q, r),
    ensures
        r == (q == p),
{
    let c = sealed_text(machine_key_spec(host), nonce, p);
    let d = choose|d: Result<String, String>| #[trigger] opened_by(machine_key_spec(host), c, d) && r == decrypts_to(d, q);
    assert(d matches Ok(s) && s@ == p);
}

/// On one machine, a stored secret reads back as it was stored: what this
/// machine sealed from `p` (short enough to seal) decrypts to `p`.
pub proof fn lemma_stored_secret_round_trip(host: Result<String, String>, nonce: Seq<u8>, p: Seq<char>, r: Option<String>)
    requires
        nonce.len() == NONCE_LEN,
        sealable(p),
        secret_check(machine_key_spec(host), sealed_text(machine_key_spec(host), nonce, p), r),
    ensures
        r matches Some(s) && s@ == p,
{
    let c = sealed_text(machine_key_spec(host), nonce, p);
    let d = choose|d: Result<String, String>| #[trigger] opened_by(machine_key_spec(host), c, d) && r == secret_of(d);
    assert(d matches Ok(s) && s@ == p);
}

/// Whether a decrypted secret is the given password.
pub fn password_matches(decrypted: Result<String, String>, password: &str) -> (r: bool)
    ensures
        r == decrypts_to(decrypted, password@),
{
    match decrypted {
        Ok(plain) => str_eq(plain.as_str(), password),
        Err(_) => false,
    }
}

fn copy_model(m: &ModelConfig) -> (res: ModelConfig)
    ensures
        res == *m,
{
    ModelConfig {
        id: m.id.clone(),
        name: m.name.clone(),
        provider: m.provider.clone(),
        base_url: m.base_url.clone(),
        api_key: match &m.api_key {
            Some(k) => Some(k.clone()),
            None => None,
        },
        model_name: m.model_name.clone(),
        supports_function_calling: m.supports_function_calling,
        is_local: m.is_local,
        max_tokens: m.max_tokens,
    }
}

/// The first model at or after `i` whose identifier is `id`.
pub open spec fn first_model(models: Seq<ModelConfig>, id: Seq<char>, i: int) -> Option<int>
    decreases models.len() - i,
{
    if i < 0 || i >= models.len() {
        None
    } else if models[i].id@ == id {
        Some(i)
    } else {
        first_model(models, id, i + 1)
    }
}

fn find_model(models: &Vec<ModelConfig>, id: &str) -> (r: Option<usize>)
    ensures
        match r {
            Some(k) => first_model(models@, id@, 0) == Some(k as int) && k < models.len() && models@[k as int].id@ == id@,
            None => first_model(models@, id@, 0) is None,
        },
{
    let mut k: usize = 0;
    while k < models.len()
        invariant
            k <= models.len(),
            first_model(models@, id@, 0) == first_model(models@, id@, k as int),
        decreases models.len() - k,
    {
        if str_eq(models[k].id.as_str(), id) {
            return Some(k);
        }
        k += 1;
    }
    None
}

impl AppSettings {
    /// The selected model's configuration.
    pub fn current_model(&self) -> (r: Option<&ModelConfig>)
        ensures
            match first_model(self.models@, self.selected_model@, 0) {
                Some(k) => r == Some(&self.models@[k]),
                None => r is None,
            },
    {
        match find_model(&self.models, self.selected_model.as_str()) {
            Some(k) => Some(&self.models[k]),
            None => None,
        }
    }

    /// Stores a model's API key, encrypted. Fails for an unknown model, or
    /// when encryption fails; the settings are then unchanged.
    pub fn set_api_key(&mut self, model_id: &str, api_key: &str) -> (r: Result<(), String>)
        ensures
            first_model(old(self).models@, model_id@, 0) is None ==> err_msg(r, "Model '"@ + model_id@ + "' not found"@),
            first_model(old(self).models@, model_id@, 0) is Some && encode_utf8(api_key@).len() <= gcm_max_input()
                ==> (r matches Err(e) ==> rng_failure(e@)),
            r is Err ==> *final(self) == *old(self),
            r is Ok ==> ({
                let k = first_model(old(self).models@, model_id@, 0)->0;
                &&& first_model(old(self).models@, model_id@, 0) is Some
                &&& final(self).models@.len() == old(self).models@.len()
                &&& final(self).models@[k].api_key matches Some(c) && seals(c@, api_key@)
                &&& final(self).models@ == old(self).models@.update(k, final(self).models@[k])
                &&& final(self).models@[k] == (ModelConfig { api_key: final(self).models@[k].api_key, ..old(self).models@[k] })
                &&& same_but_models(*final(self), *old(self))
            }),
    {
        match find_model(&self.models, model_id) {
            Some(k) => {
                let encrypted = match Encryption::encrypt(api_key) {
            Ok(c) => c,
            Err(e) => return Err(e),
        };
                let mut m = copy_model(&self.models[k]);
                m.api_key = Some(encrypted);
                self.models.set(k, m);
                Ok(())
            },
            None => {
                let mut e = String::from_str("Model '");
                e.append(model_id);
                e.append("' not found");
                Err(e)
            },
        }
    }

    /// A model's API key, decrypted; none for an unknown model, a model
    /// without a key, or a key that does not decrypt.
    pub fn get_api_key(&self, model_id: &str) -> (r: Option<String>)
        ensures
            match first_model(self.models@, model_id@, 0) {
                Some(k) => match self.models@[k].api_key {
                    Some(c) => exists|host: Result<String, String>| #[trigger] secret_check(machine_key_spec(host), c@, r),
                    None => r is None,
                },
                None => r is None,
            },
    {
        match find_model(&self.models, model_id) {
            Some(k) => match &self.models[k].api_key {
                Some(encrypted) => {
                    let d = Encryption::decrypt(encrypted.as_str());
                    let ghost dd = d;
                    let ghost host = choose|host: Result<String, String>| #[trigger] opened_by(machine_key_spec(host), encrypted@, dd);
                    let r = match d {
                        Ok(plain) => Some(plain),
                        Err(_) => None,
                    };
                    proof {
                        assert(opened_by(machine_key_spec(host), encrypted@, dd) && r == secret_of(dd));
                        assert(secret_check(machine_key_spec(host), encrypted@, r));
                        assert(self.models@[k as int].api_key == Some(*encrypted));
                    }
                    r
                },
                None => None,
            },
            None => None,
        }
    }

    /// Stores a new MegaBoss password, encrypted, and locks MegaBoss mode.
    /// The password, trimmed, must take at least six bytes.
    pub fn set_megaboss_password(&mut self, password: &str) -> (r: Result<(), String>)
        ensures
            utf8_len(trim_seq(password@)) < 6 ==> err_msg(r, "La clave MegaBoss debe tener al menos 6 caracteres."@),
            utf8_len(trim_seq(password@)) >= 6 && encode_utf8(password@).len() <= gcm_max_input()
                ==> (r matches Err(e) ==> rng_failure(e@)),
            r is Err ==> *final(self) == *old(self),
            r is Ok ==> {
                &&& utf8_len(trim_seq(password@)) >= 6
                &&& final(self).megaboss_password_encrypted matches Some(c) && seals(c@, password@)
                &&& final(self).megaboss_unlock_until_epoch is None
                &&& final(self).users == old(self).users
                &&& final(self).auth == old(self).auth
                &&& final(self).models == old(self).models
                &&& final(self).user_role == old(self).user_role
            },
    {
        if utf8_len_below(&trim(password), 6) {
            return Err(String::from_str("La clave MegaBoss debe tener al menos 6 caracteres."));
        }
        let encrypted = match Encryption::encrypt(password) {
            Ok(c) => c,
            Err(e) => return Err(e),
        };
        self.megaboss_password_encrypted = Some(encrypted);
        self.megaboss_unlock_until_epoch = None;
        Ok(())
    }

    /// Whether `password` is the MegaBoss password; never when none is set.
    pub fn verify_megaboss_password(&self, password: &str) -> (r: bool)
        ensures
            self.megaboss_password_encrypted is None ==> !r,
            self.megaboss_password_encrypted matches Some(c) ==> exists|host: Result<String, String>|
                #[trigger] password_check(machine_key_spec(host), c@, password@, r),
    {
        match &self.megaboss_password_encrypted {
            Some(enc) => Self::check_sealed_password(enc.as_str(), password),
            None => false,
        }
    }

    fn check_sealed_password(enc: &str, password: &str) -> (r: bool)
        ensures
            exists|host: Result<String, String>| #[trigger] password_check(machine_key_spec(host), enc@, password@, r),
    {
        let d = Encryption::decrypt(enc);
        let ghost dd = d;
        let ghost host = choose|host: Result<String, String>| #[trigger] opened_by(machine_key_spec(host), enc@, dd);
        let r = password_matches(d, password);
        assert(password_check(machine_key_spec(host), enc@, password@, r));
        r
    }

    /// Whether `password` is the technician's critical password; never when
    /// none is set.
    pub fn verify_tecnico_critical_password(&self, password: &str) -> (r: bool)
        ensures
            self.tecnico_critical_password_encrypted is None ==> !r,
            self.tecnico_critical_password_encrypted matches Some(c) ==> exists|host: Result<String, String>|
                #[trigger] password_check(machine_key_spec(host), c@, password@, r),
    {
        match &self.tecnico_critical_password_encrypted {
            Some(enc) => Self::check_sealed_password(enc.as_str(), password),
            None => false,
        }
    }

    /// Whether a superuser is signed in.
    pub fn is_superuser(&self) -> (r: bool)
        ensures
            r == (self.auth.current_profile == Some(SupportProfile::Superusuario)),
    {
        match self.auth.current_profile {
            Some(SupportProfile::Superusuario) => true,
            _ => false,
        }
    }

    fn find_login_user(&self, username: &str) -> (r: Option<usize>)
        ensures
            match r {
                Some(k) => first_login_match(self.users@, username@, 0) == Some(k as int) && k < self.users.len(),
                None => first_login_match(self.users@, username@, 0) is None,
            },
    {
        let mut k: usize = 0;
        while k < self.users.len()
            invariant
                k <= self.users.len(),
                first_login_match(self.users@, username@, 0) == first_login_match(self.users@, username@, k as int),
            decreases self.users.len() - k,
        {
            if self.users[k].active && eq_ignore_ascii_case(self.users[k].username.as_str(), username) {
                return Some(k);
            }
            k += 1;
        }
        None
    }

    /// Completes a sign-in as account `index`, given the decryption of its
    /// stored password: the session becomes that account's when the
    /// decrypted text is `password`; otherwise nothing changes.
    pub fn apply_login(&mut self, index: usize, decrypted: Result<String, String>, password: &str) -> (r: Result<SupportProfile, String>)
        requires
            index < old(self).users.len(),
        ensures
            decrypts_to(decrypted, password@) ==> {
                &&& r == Ok::<SupportProfile, String>(old(self).users@[index as int].profile)
                &&& signed_in_as(*final(self), old(self).users@[index as int])
                &&& same_but_session(*final(self), *old(self))
            },
            !decrypts_to(decrypted, password@) ==> err_msg(r, bad_credentials()) && *final(self) == *old(self),
    {
        if !password_matches(decrypted, password) {
            return Err(String::from_str("Credenciales invalidas"));
        }
        let profile = self.users[index].profile;
        let name = self.users[index].username.clone();
        self.auth.is_authenticated = true;
        self.auth.current_username = Some(name);
        self.auth.current_profile = Some(profile);
        self.auth.tecnico_critical_unlock_until_epoch = None;
        self.user_role = profile.to_rbac_role();
        Ok(profile)
    }

    /// Signs in: the first active account whose name equals `username` up to
    /// ASCII case, when `password` decrypts from its stored password.
    pub fn login(&mut self, username: &str, password: &str) -> (r: Result<SupportProfile, String>)
        ensures
            match first_login_match(old(self).users@, username@, 0) {
                None => err_msg(r, "Usuario no encontrado o inactivo"@) && *final(self) == *old(self),
                Some(k) => {
                    &&& r is Ok ==> {
                        &&& r == Ok::<SupportProfile, String>(old(self).users@[k].profile)
                        &&& signed_in_as(*final(self), old(self).users@[k])
                        &&& same_but_session(*final(self), *old(self))
                    }
                    &&& r is Err ==> err_msg(r, bad_credentials()) && *final(self) == *old(self)
                    &&& exists|host: Result<String, String>|
                        #[trigger] password_check(machine_key_spec(host), old(self).users@[k].password_encrypted@, password@, r is Ok)
                },
            },
    {
        match self.find_login_user(username) {
            None => Err(String::from_str("Usuario no encontrado o inactivo")),
            Some(k) => {
                let decrypted = Encryption::decrypt(self.users[k].password_encrypted.as_str());
                let ghost dd = decrypted;
                let ghost stored = self.users@[k as int].password_encrypted@;
                let ghost host = choose|host: Result<String, String>| #[trigger] opened_by(machine_key_spec(host), stored, dd);
                let r = self.apply_login(k, decrypted, password);
                assert(password_check(machine_key_spec(host), stored, password@, r is Ok));
                r
            },
        }
    }

    /// Signs out: nobody is signed in and the role falls back to viewer.
    pub fn logout(&mut self)
        ensures
            signed_out(final(self).auth),
            final(self).user_role == UserRole::Viewer,
            same_but_session(*final(self), *old(self)),
    {
        self.auth = AuthState::default();
        self.user_role = UserRole::Viewer;
    }

    /// Creates an account; only a superuser may. The name, trimmed, must take
    /// at least three bytes and the password, trimmed, at least eight; no
    /// account may have the same name up to ASCII case.
    pub fn create_user(&mut self, username: &str, password: &str, profile: SupportProfile) -> (r: Result<(), String>)
        ensures
            old(self).auth.current_profile != Some(SupportProfile::Superusuario) ==> err_msg(r, "Solo el superusuario puede crear usuarios"@),
            old(self).auth.current_profile == Some(SupportProfile::Superusuario) && utf8_len(trim_seq(username@)) < 3
                ==> err_msg(r, "El usuario debe tener al menos 3 caracteres"@),
            old(self).auth.current_profile == Some(SupportProfile::Superusuario) && utf8_len(trim_seq(username@)) >= 3
                && utf8_len(trim_seq(password@)) < 8 ==> err_msg(r, "La contrasena debe tener al menos 8 caracteres"@),
            old(self).auth.current_profile == Some(SupportProfile::Superusuario) && utf8_len(trim_seq(username@)) >= 3
                && utf8_len(trim_seq(password@)) >= 8 && name_taken(old(self).users@, username@)
                ==> err_msg(r, "El usuario ya existe"@),
            old(self).auth.current_profile == Some(SupportProfile::Superusuario) && utf8_len(trim_seq(username@)) >= 3
                && utf8_len(trim_seq(password@)) >= 8 && !name_taken(old(self).users@, username@)
                && encode_utf8(password@).len() <= gcm_max_input() ==> (r matches Err(e) ==> rng_failure(e@)),
            r is Err ==> *final(self) == *old(self),
            r is Ok ==> {
                &&& old(self).auth.current_profile == Some(SupportProfile::Superusuario)
                &&& utf8_len(trim_seq(username@)) >= 3
                &&& utf8_len(trim_seq(password@)) >= 8
                &&& !name_taken(old(self).users@, username@)
                &&& final(self).users@.len() == old(self).users@.len() + 1
                &&& final(self).users@.drop_last() == old(self).users@
                &&& created_account(final(self).users@.last(), username@, profile)
                &&& seals(final(self).users@.last().password_encrypted@, password@)
                &&& same_but_users(*final(self), *old(self))
            },
    {
        if !self.is_superuser() {
            return Err(String::from_str("Solo el superusuario puede crear usuarios"));
        }
        let trimmed = trim(username);
        if utf8_len_below(&trimmed, 3) {
            return Err(String::from_str("El usuario debe tener al menos 3 caracteres"));
        }
        if utf8_len_below(&trim(password), 8) {
            return Err(String::from_str("La contrasena debe tener al menos 8 caracteres"));
        }
        let mut k: usize = 0;
        while k < self.users.len()
            invariant
                k <= self.users.len(),
                *self == *old(self),
                self.auth.current_profile == Some(SupportProfile::Superusuario),
                trimmed@ == trim_seq(username@),
                utf8_len(trim_seq(username@)) >= 3,
                utf8_len(trim_seq(password@)) >= 8,
                forall|j: int| 0 <= j < k ==> !eq_ignore_ascii_case_spec(#[trigger] self.users@[j].username@, username@),
            decreases self.users.len() - k,
        {
            if eq_ignore_ascii_case(self.users[k].username.as_str(), username) {
                return Err(String::from_str("El usuario ya existe"));
            }
            k += 1;
        }
        let encrypted = match Encryption::encrypt(password) {
            Ok(c) => c,
            Err(e) => return Err(e),
        };
        let account = UserAccount {
            username: string_from_chars(&trimmed),
            password_encrypted: encrypted,
            profile,
            active: true,
        };
        let ghost before = self.users@;
        self.users.push(account);
        assert(self.users@.drop_last() =~= before);
        Ok(())
    }

    /// Deletes the accounts whose name equals `username`, trimmed, up to
    /// ASCII case; only a superuser may, and never the base `superadmin`.
    pub fn delete_user(&mut self, username: &str) -> (r: Result<(), String>)
        ensures
            old(self).auth.current_profile != Some(SupportProfile::Superusuario) ==> err_msg(r, "Solo el superusuario puede borrar usuarios"@),
            old(self).auth.current_profile == Some(SupportProfile::Superusuario)
                && eq_ignore_ascii_case_spec(trim_seq(username@), "superadmin"@)
                ==> err_msg(r, "No se puede borrar el superadmin base"@),
            old(self).auth.current_profile == Some(SupportProfile::Superusuario)
                && !eq_ignore_ascii_case_spec(trim_seq(username@), "superadmin"@)
                && !name_taken(old(self).users@, trim_seq(username@))
                ==> err_msg(r, "Usuario no encontrado"@),
            r is Err ==> *final(self) == *old(self),
            r is Ok ==> {
                &&& old(self).auth.current_profile == Some(SupportProfile::Superusuario)
                &&& !eq_ignore_ascii_case_spec(trim_seq(username@), "superadmin"@)
                &&& name_taken(old(self).users@, trim_seq(username@))
                &&& final(self).users@ == remove_matching(old(self).users@, trim_seq(username@))
                &&& same_but_users(*final(self), *old(self))
            },
    {
        if !self.is_superuser() {
            return Err(String::from_str("Solo el superusuario puede borrar usuarios"));
        }
        let uname_chars = trim(username);
        let uname = string_from_chars(&uname_chars);
        if eq_ignore_ascii_case(uname.as_str(), "superadmin") {
            return Err(String::from_str("No se puede borrar el superadmin base"));
        }
        let ghost name = uname@;
        let mut kept: Vec<UserAccount> = Vec::new();
        let mut removed = false;
        let mut i: usize = 0;
        while i < self.users.len()
            invariant
                i <= self.users.len(),
                *self == *old(self),
                self.auth.current_profile == Some(SupportProfile::Superusuario),
                !eq_ignore_ascii_case_spec(name, "superadmin"@),
                name == uname@,
                name == trim_seq(username@),
                kept@ == remove_matching(self.users@.take(i as int), name),
                removed == name_taken(self.users@.take(i as int), name),
            decreases self.users.len() - i,
        {
            let ghost pre = self.users@.take(i as int);
            let ghost next = self.users@.take(i as int + 1);
            assert(next.drop_last() =~= pre);
            if eq_ignore_ascii_case(self.users[i].username.as_str(), uname.as_str()) {
                removed = true;
                assert(next[i as int] == self.users@[i as int]);
            } else {
                let u = self.users[i].clone_account();
                kept.push(u);
                proof {
                    if name_taken(next, name) {
                        let j = choose|j: int| 0 <= j < next.len() && eq_ignore_ascii_case_spec(#[trigger] next[j].username@, name);
                        if j < i {
                            assert(pre[j] == next[j]);
                        }
                    }
                }
            }
            proof {
                if name_taken(pre, name) {
                    let j = choose|j: int| 0 <= j < pre.len() && eq_ignore_ascii_case_spec(#[trigger] pre[j].username@, name);
                    assert(next[j] == pre[j]);
                }
            }
            i += 1;
        }
        assert(self.users@.take(self.users.len() as int) =~= self.users@);
        if !removed {
            return Err(String::from_str("Usuario no encontrado"));
        }
        self.users = kept;
        Ok(())
    }
}

impl UserAccount {
    /// A copy of this account.
    pub fn clone_account(&self) -> (res: UserAccount)
        ensures
            res == *self,
    {
        UserAccount {
            username: self.username.clone(),
            password_encrypted: self.password_encrypted.clone(),
            profile: self.profile,
            active: self.active,
        }
    }
}

// ---------------------------------------------------------------------------
// Time-limited elevations
// ---------------------------------------------------------------------------


/// An elevation that lasts until `until` is active at `now`.
pub open spec fn unlocked_at(until: Option<i64>, now: i64) -> bool {
    until matches Some(u) && u > now
}

/// The end of an elevation of `minutes` minutes that starts at `now`, when
/// the span and the end fit in the clock's range.
pub open spec fn deadline(now: i64, minutes: i64) -> Option<i64> {
    let span = minutes * 60;
    let end = now + span;
    if i64::MIN <= span <= i64::MAX && i64::MIN <= end <= i64::MAX { Some(end as i64) } else { None }
}

/// The settings of a technician elevated until `until`: power-user rights
/// and the elevation's end, all else as it was.
pub open spec fn tecnico_elevated(s: AppSettings, until: i64) -> AppSettings {
    AppSettings {
        auth: AuthState { tecnico_critical_unlock_until_epoch: Some(until), ..s.auth },
        user_role: UserRole::PowerUser,
        ..s
    }
}

/// The message for an elevation whose end does not fit in the clock's range.
pub open spec fn out_of_range() -> Seq<char> {
    "Duracion de desbloqueo fuera de rango"@
}

fn compute_deadline(now: i64, minutes: i64) -> (r: Option<i64>)
    ensures
        r == deadline(now, minutes),
{
    match minutes.checked_mul(60) {
        Some(span) => now.checked_add(span),
        None => None,
    }
}

impl AppSettings {
    /// Whether MegaBoss mode is unlocked at `now`.
    pub fn megaboss_unlocked_at(&self, now: i64) -> (r: bool)
        ensures
            r == unlocked_at(self.megaboss_unlock_until_epoch, now),
    {
        match self.megaboss_unlock_until_epoch {
            Some(until) => until > now,
            None => false,
        }
    }

    /// Whether MegaBoss mode is unlocked now: whether its unlock lasts past
    /// the clock's reading; never when it was not unlocked.
    pub fn is_megaboss_unlocked(&self) -> (r: bool)
        ensures
            exists|now: i64| r == #[trigger] unlocked_at(self.megaboss_unlock_until_epoch, now),
            self.megaboss_unlock_until_epoch is None ==> !r,
    {
        self.megaboss_unlocked_at(now_epoch())
    }

    /// Unlocks MegaBoss mode from `now` for `minutes` minutes.
    pub fn unlock_megaboss_until(&mut self, now: i64, minutes: i64) -> (r: Result<(), String>)
        ensures
            deadline(now, minutes) is None ==> err_msg(r, out_of_range()) && *final(self) == *old(self),
            deadline(now, minutes) matches Some(u) ==> r is Ok
                && *final(self) == (AppSettings { megaboss_unlock_until_epoch: Some(u), ..*old(self) }),
    {
        match compute_deadline(now, minutes) {
            Some(until) => {
                self.megaboss_unlock_until_epoch = Some(until);
                Ok(())
            },
            None => Err(String::from_str("Duracion de desbloqueo fuera de rango")),
        }
    }

    /// Unlocks MegaBoss mode for `minutes` minutes from now: as
    /// `unlock_megaboss_until` does at the clock's reading.
    pub fn unlock_megaboss_for_minutes(&mut self, minutes: i64) -> (r: Result<(), String>)
        ensures
            exists|now: i64| match #[trigger] deadline(now, minutes) {
                Some(u) => r is Ok && *final(self) == (AppSettings { megaboss_unlock_until_epoch: Some(u), ..*old(self) }),
                None => err_msg(r, out_of_range()) && *final(self) == *old(self),
            },
            minutes == 0 ==> r is Ok,
    {
        let now = now_epoch();
        self.unlock_megaboss_until(now, minutes)
    }

    /// Grants a signed-in technician power-user rights from `now` for
    /// `minutes` minutes; other profiles are refused.
    pub fn unlock_tecnico_critical_until(&mut self, now: i64, minutes: i64) -> (r: Result<(), String>)
        ensures
            old(self).auth.current_profile != Some(SupportProfile::Tecnico) ==> err_msg(r, "Solo el perfil Tecnico puede usar esta elevacion"@)
                && *final(self) == *old(self),
            old(self).auth.current_profile == Some(SupportProfile::Tecnico) && deadline(now, minutes) is None
                ==> err_msg(r, out_of_range()) && *final(self) == *old(self),
            old(self).auth.current_profile == Some(SupportProfile::Tecnico) ==> match deadline(now, minutes) {
                Some(u) => r is Ok && *final(self) == tecnico_elevated(*old(self), u),
                None => err_msg(r, out_of_range()) && *final(self) == *old(self),
            },
    {
        match self.auth.current_profile {
            Some(SupportProfile::Tecnico) => {},
            _ => return Err(String::from_str("Solo el perfil Tecnico puede usar esta elevacion")),
        }
        match compute_deadline(now, minutes) {
            Some(until) => {
                self.auth.tecnico_critical_unlock_until_epoch = Some(until);
                self.user_role = UserRole::PowerUser;
                Ok(())
            },
            None => Err(String::from_str("Duracion de desbloqueo fuera de rango")),
        }
    }

    /// Grants a signed-in technician power-user rights for `minutes` minutes
    /// from now: as `unlock_tecnico_critical_until` does at the clock's
    /// reading; other profiles are refused.
    pub fn unlock_tecnico_critical_for_minutes(&mut self, minutes: i64) -> (r: Result<(), String>)
        ensures
            old(self).auth.current_profile != Some(SupportProfile::Tecnico) ==> err_msg(r, "Solo el perfil Tecnico puede usar esta elevacion"@)
                && *final(self) == *old(self),
            old(self).auth.current_profile == Some(SupportProfile::Tecnico) ==> exists|now: i64| match #[trigger] deadline(now, minutes) {
                Some(u) => r is Ok && *final(self) == tecnico_elevated(*old(self), u),
                None => err_msg(r, out_of_range()) && *final(self) == *old(self),
            },
            old(self).auth.current_profile == Some(SupportProfile::Tecnico) && minutes == 0 ==> r is Ok,
    {
        let now = now_epoch();
        self.unlock_tecnico_critical_until(now, minutes)
    }

    /// A technician's role at `now`: power user while the elevation lasts,
    /// viewer otherwise; other sessions keep their role.
    pub fn refresh_tecnico_role_at(&mut self, now: i64)
        ensures
            old(self).auth.current_profile == Some(SupportProfile::Tecnico) ==> final(self).user_role == (
                if unlocked_at(old(self).auth.tecnico_critical_unlock_until_epoch, now) { UserRole::PowerUser } else { UserRole::Viewer }),
            old(self).auth.current_profile != Some(SupportProfile::Tecnico) ==> final(self).user_role == old(self).user_role,
            same_but_session(*final(self), *old(self)),
            final(self).auth == old(self).auth,
    {
        match self.auth.current_profile {
            Some(SupportProfile::Tecnico) => {
                let unlocked = match self.auth.tecnico_critical_unlock_until_epoch {
                    Some(until) => until > now,
                    None => false,
                };
                self.user_role = if unlocked { UserRole::PowerUser } else { UserRole::Viewer };
            },
            _ => {},
        }
    }

    /// A technician's role now: as `refresh_tecnico_role_at` sets it at the
    /// clock's reading.
    pub fn refresh_tecnico_role_if_needed(&mut self)
        ensures
            old(self).auth.current_profile == Some(SupportProfile::Tecnico) ==> exists|now: i64| final(self).user_role == (
                if #[trigger] unlocked_at(old(self).auth.tecnico_critical_unlock_until_epoch, now) { UserRole::PowerUser } else { UserRole::Viewer }),
            old(self).auth.current_profile != Some(SupportProfile::Tecnico) ==> final(self).user_role == old(self).user_role,
            old(self).auth.current_profile == Some(SupportProfile::Tecnico) && old(self).auth.tecnico_critical_unlock_until_epoch is None
                ==> final(self).user_role == UserRole::Viewer,
            same_but_session(*final(self), *old(self)),
            final(self).auth == old(self).auth,
    {
        let now = now_epoch();
        self.refresh_tecnico_role_at(now);
    }
}

// ---------------------------------------------------------------------------
// Default models and accounts
// ---------------------------------------------------------------------------

/// A model configuration as plain values: identifier, name, provider, base
/// URL, whether it has a key, model name, function calling, local, maximum
/// tokens.
pub open spec fn model_view(m: ModelConfig) -> (Seq<char>, Seq<char>, Seq<char>, Seq<char>, bool, Seq<char>, bool, bool, u32) {
    (m.id@, m.name@, m.provider@, m.base_url@, m.api_key is Some, m.model_name@, m.supports_function_calling, m.is_local, m.max_tokens)
}

/// A model without a stored key.
pub fn model_config(id: &str, name: &str, provider: &str, base_url: &str, model_name: &str, supports_function_calling: bool, is_local: bool, max_tokens: u32) -> (res: ModelConfig)
    ensures
        model_view(res) == (id@, name@, provider@, base_url@, false, model_name@, supports_function_calling, is_local, max_tokens),
{
    ModelConfig {
        id: String::from_str(id),
        name: String::from_str(name),
        provider: String::from_str(provider),
        base_url: String::from_str(base_url),
        api_key: None,
        model_name: String::from_str(model_name),
        supports_function_calling,
        is_local,
        max_tokens,
    }
}

/// The models configured out of the box: the local Gemma 3 first, then the
/// cloud models.
pub open spec fn default_models_spec() -> Seq<(Seq<char>, Seq<char>, Seq<char>, Seq<char>, bool, Seq<char>, bool, bool, u32)> {
    seq![
        ("gemma3-local"@, "Gemma 3 Local (Docker)"@, "docker-model-runner"@, "http://localhost:11435/v1"@, false, "gemma:2b"@, true, true, 500u32),
        ("glm-5"@, "GLM-3 Turbo (Zhipu)"@, "zhipu"@, "https://open.bigmodel.cn/api/paas/v4"@, false, "glm-3-turbo"@, true, false, 4096u32),
        ("gemini-flash"@, "Gemini 2.0 Flash"@, "google"@, "https://generativelanguage.googleapis.com/v1beta/openai"@, false, "gemini-2.0-flash"@, true, false, 8192u32),
        ("llama-groq"@, "Llama 3.3 70B (Groq)"@, "groq"@, "https://api.groq.com/openai/v1"@, false, "llama-3.3-70b-versatile"@, true, false, 4096u32),
        ("qwen-openrouter"@, "Qwen 2.5 72B"@, "openrouter"@, "https://openrouter.ai/api/v1"@, false, "qwen/qwen-2.5-72b-instruct"@, true, false, 4096u32),
        ("deepseek-v3"@, "DeepSeek V3"@, "deepseek"@, "https://api.deepseek.com/v1"@, false, "deepseek-chat"@, true, false, 4096u32),
    ]
}

impl AppSettings {
    /// The models configured out of the box.
    pub fn default_models() -> (res: Vec<ModelConfig>)
        ensures
            res@.map_values(|m: ModelConfig| model_view(m)) == default_models_spec(),
    {
        let mut res: Vec<ModelConfig> = Vec::new();
        res.push(model_config("gemma3-local", "Gemma 3 Local (Docker)", "docker-model-runner", "http://localhost:11435/v1", "gemma:2b", true, true, 500));
        res.push(model_config("glm-5", "GLM-3 Turbo (Zhipu)", "zhipu", "https://open.bigmodel.cn/api/paas/v4", "glm-3-turbo", true, false, 4096));
        res.push(model_config("gemini-flash", "Gemini 2.0 Flash", "google", "https://generativelanguage.googleapis.com/v1beta/openai", "gemini-2.0-flash", true, false, 8192));
        res.push(model_config("llama-groq", "Llama 3.3 70B (Groq)", "groq", "https://api.groq.com/openai/v1", "llama-3.3-70b-versatile", true, false, 4096));
        res.push(model_config("qwen-openrouter", "Qwen 2.5 72B", "openrouter", "https://openrouter.ai/api/v1", "qwen/qwen-2.5-72b-instruct", true, false, 4096));
        res.push(model_config("deepseek-v3", "DeepSeek V3", "deepseek", "https://api.deepseek.com/v1", "deepseek-chat", true, false, 4096));
        proof {
            let s = default_models_spec();
            assert forall|k: int| 0 <= k < 6 implies model_view(#[trigger] res@[k]) == s[k] by {}
            assert(res@.map_values(|m: ModelConfig| model_view(m)) =~= s);
        }
        res
    }

    /// The base accounts: `superadmin`, `soporte1` and `tecnico`, active,
    /// each with its own profile and an encrypted default password.
    pub fn default_users() -> (res: Vec<UserAccount>)
        ensures
            res@.len() == 3,
            res@[0].username@ == "superadmin"@ && res@[0].profile == SupportProfile::Superusuario && res@[0].active,
            res@[1].username@ == "soporte1"@ && res@[1].profile == SupportProfile::Soporte1 && res@[1].active,
            res@[2].username@ == "tecnico"@ && res@[2].profile == SupportProfile::Tecnico && res@[2].active,
    {
        let super_pass = match Encryption::encrypt("KernelIA!Super2026") {
            Ok(c) => c,
            Err(_) => String::new(),
        };
        let soporte_pass = match Encryption::encrypt("KernelIA!Support2026") {
            Ok(c) => c,
            Err(_) => String::new(),
        };
        let tecnico_pass = match Encryption::encrypt("KernelIA!Tech2026") {
            Ok(c) => c,
            Err(_) => String::new(),
        };
        vec![
            UserAccount { username: String::from_str("superadmin"), password_encrypted: super_pass, profile: SupportProfile::Superusuario, active: true },
            UserAccount { username: String::from_str("soporte1"), password_encrypted: soporte_pass, profile: SupportProfile::Soporte1, active: true },
            UserAccount { username: String::from_str("tecnico"), password_encrypted: tecnico_pass, profile: SupportProfile::Tecnico, active: true },
        ]
    }
}

// ---------------------------------------------------------------------------
// Default quick checks
// ---------------------------------------------------------------------------

/// A quick check as plain values: identifier, label, description, icon,
/// color, kind, required permissions, prompt, tool pipeline.
pub open spec fn quick_check_view(q: QuickCheck) -> (Seq<char>, Seq<char>, Seq<char>, Seq<char>, Seq<char>, QuickCheckType, Seq<Seq<char>>, Option<Seq<char>>, Seq<Seq<char>>) {
    (q.id@, q.label@, q.description@, q.icon@, q.color@, q.kind, string_views(q.required_permissions@),
        match q.prompt { Some(p) => Some(p@), None => None }, string_views(q.tool_pipeline@))
}

/// The plain views of a list of quick checks.
pub open spec fn quick_check_views(qs: Seq<QuickCheck>) -> Seq<(Seq<char>, Seq<char>, Seq<char>, Seq<char>, Seq<char>, QuickCheckType, Seq<Seq<char>>, Option<Seq<char>>, Seq<Seq<char>>)> {
    qs.map_values(|q: QuickCheck| quick_check_view(q))
}

/// A quick check that runs one tool, which is also the one permission it
/// needs.
pub open spec fn direct_check_spec(id: Seq<char>, label: Seq<char>, description: Seq<char>, icon: Seq<char>, color: Seq<char>, tool: Seq<char>) -> (Seq<char>, Seq<char>, Seq<char>, Seq<char>, Seq<char>, QuickCheckType, Seq<Seq<char>>, Option<Seq<char>>, Seq<Seq<char>>) {
    (id, label, description, icon, color, QuickCheckType::DirectTool, seq![tool], None, seq![tool])
}

fn direct_check(id: &str, label: &str, description: &str, icon: &str, color: &str, tool: &str) -> (res: QuickCheck)
    ensures
        quick_check_view(res) == direct_check_spec(id@, label@, description@, icon@, color@, tool@),
{
    let res = QuickCheck {
        id: String::from_str(id),
        label: String::from_str(label),
        description: String::from_str(description),
        icon: String::from_str(icon),
        color: String::from_str(color),
        kind: QuickCheckType::DirectTool,
        required_permissions: vec![String::from_str(tool)],
        prompt: None,
        tool_pipeline: vec![String::from_str(tool)],
    };
    assert(string_views(res.required_permissions@) =~= seq![tool@]);
    assert(string_views(res.tool_pipeline@) =~= seq![tool@]);
    res
}

/// The quick check that asks the model why the computer is slow.
pub open spec fn slow_pc_check_spec() -> (Seq<char>, Seq<char>, Seq<char>, Seq<char>, Seq<char>, QuickCheckType, Seq<Seq<char>>, Option<Seq<char>>, Seq<Seq<char>>) {
    ("slow_pc"@, "Por que esta lenta?"@, "Analisis IA de CPU/RAM/procesos con diagnostico ejecutivo."@, "SLOW"@, "orange"@, QuickCheckType::LlmPrompt,
        seq!["get_system_info"@, "list_processes"@], Some("Analiza el rendimiento actual del sistema. Revisa CPU, RAM y los procesos que mas consumen recursos. Proporciona un diagnostico conciso en espanol con 3 causas probables y 3 acciones concretas para mejorar el rendimiento. No uses emojis. Entrega respuesta clara para usuario final."@), Seq::empty())
}

fn slow_pc_check() -> (res: QuickCheck)
    ensures
        quick_check_view(res) == slow_pc_check_spec(),
{
    let res = QuickCheck {
        id: String::from_str("slow_pc"),
        label: String::from_str("Por que esta lenta?"),
        description: String::from_str("Analisis IA de CPU/RAM/procesos con diagnostico ejecutivo."),
        icon: String::from_str("SLOW"),
        color: String::from_str("orange"),
        kind: QuickCheckType::LlmPrompt,
        required_permissions: vec![String::from_str("get_system_info"), String::from_str("list_processes")],
        prompt: Some(String::from_str("Analiza el rendimiento actual del sistema. Revisa CPU, RAM y los procesos que mas consumen recursos. Proporciona un diagnostico conciso en espanol con 3 causas probables y 3 acciones concretas para mejorar el rendimiento. No uses emojis. Entrega respuesta clara para usuario final.")),
        tool_pipeline: Vec::new(),
    };
    assert(string_views(res.required_permissions@) =~= seq!["get_system_info"@, "list_processes"@]);
    assert(string_views(res.tool_pipeline@) =~= Seq::<Seq<char>>::empty());
    res
}

/// The pre-configured quick checks, in order.
pub open spec fn default_quick_checks_spec() -> Seq<(Seq<char>, Seq<char>, Seq<char>, Seq<char>, Seq<char>, QuickCheckType, Seq<Seq<char>>, Option<Seq<char>>, Seq<Seq<char>>)> {
    seq![
        direct_check_spec("system_health"@, "Salud del Sistema"@, "CPU, RAM, Disco y temperatura en tiempo real."@, "SYS"@, "blue"@, "get_system_info"@),
        slow_pc_check_spec(),
        direct_check_spec("junk_scan"@, "Escaneo de Basura"@, "Detecta archivos temporales y espacio recuperable."@, "JUNK"@, "yellow"@, "analyze_junk"@),
        direct_check_spec("network_check"@, "Chequeo de Red"@, "Ping, DNS y latencia hacia servidores clave."@, "NET"@, "green"@, "run_network_diagnostic"@),
        direct_check_spec("autostart_audit"@, "Auditoria de Inicio"@, "Apps que inician con Windows y usan recursos."@, "BOOT"@, "purple"@, "analyze_registry"@),
        direct_check_spec("health_score"@, "Health Score"@, "Riesgo operacional, anomalias y tendencia del equipo."@, "HEALTH"@, "green"@, "health_overview"@),
        direct_check_spec("automation_plan"@, "Automatizacion Inteligente"@, "Evalua reglas SI/ENTONCES y plan de remediacion."@, "AUTO"@, "blue"@, "run_automation_cycle"@),
        direct_check_spec("asset_inventory"@, "Inventario Automatico"@, "Escaneo de hardware/software del endpoint."@, "INV"@, "yellow"@, "scan_asset_inventory"@),
        direct_check_spec("incident_tickets"@, "Tickets IA"@, "Consulta incidentes creados automaticamente."@, "TICKET"@, "orange"@, "list_incident_tickets"@),
        direct_check_spec("ops_docs"@, "Documentacion IA"@, "Genera runbook tecnico con evidencia de operaciones."@, "DOC"@, "red"@, "generate_operational_documentation"@),
        direct_check_spec("multi_tenant"@, "Multiempresa"@, "Vista consolidada de tenants, endpoints y salud operacional."@, "TENANT"@, "purple"@, "cloud_multi_tenant_overview"@),
        direct_check_spec("multiagent"@, "Multiagente"@, "Diagnostico coordinado por agentes especialistas."@, "AGENT"@, "green"@, "run_multiagent_diagnosis"@),
        direct_check_spec("remote_support"@, "Soporte Remoto"@, "Sesiones remotas activas/cerradas con trazabilidad."@, "REMOTE"@, "blue"@, "list_remote_support_sessions"@),
        direct_check_spec("rollback_ops"@, "Rollback"@, "Snapshots operativos disponibles para reversión segura."@, "ROLL"@, "orange"@, "list_rollback_snapshots"@),
        direct_check_spec("trusted_exec"@, "Trusted Exec"@, "Verifica integridad del binario contra attestations previas."@, "TRUST"@, "yellow"@, "verify_release_attestation"@),
        direct_check_spec("phase3_smoke"@, "Fase 3 Smoke"@, "Validación E2E de multiempresa, multiagente, remoto, rollback y trusted exec."@, "SMOKE"@, "red"@, "run_phase3_smoke"@),
        direct_check_spec("proactive_maintenance"@, "Mantenimiento Proactivo"@, "Ciclo preventivo con salud, multiagente y alerta operativa."@, "PRO"@, "green"@, "run_proactive_maintenance"@),
        direct_check_spec("proactive_alerts"@, "Alertas Proactivas"@, "Historial de alertas preventivas y acciones sugeridas."@, "ALERT"@, "orange"@, "list_proactive_alerts"@),
        direct_check_spec("multimodel_route"@, "Ruta Multimodelo"@, "Recomendación dinámica del modelo IA según contexto de tarea."@, "ROUTE"@, "purple"@, "recommend_model_route"@),
        direct_check_spec("phase4_smoke"@, "Fase 4 Smoke"@, "Validación E2E de proactividad, scheduler y multimodelo."@, "F4"@, "red"@, "run_phase4_smoke"@),
        direct_check_spec("cloud_sync"@, "Cloud Sync"@, "Sincroniza diagnóstico con Hackteck Cloud y genera ticket."@, "CLOUD"@, "blue"@, "upload_cloud_report"@),
        direct_check_spec("enterprise_dashboard"@, "Enterprise Dashboard"@, "KPIs de operación cloud, tickets, alertas y casos."@, "ENT"@, "purple"@, "get_enterprise_dashboard"@),
        direct_check_spec("enterprise_cases"@, "Casos Enterprise"@, "Consulta casos de soporte escalados en cloud."@, "CASE"@, "orange"@, "list_support_cases"@),
        direct_check_spec("phase5_smoke"@, "Fase 5 Smoke"@, "Validación E2E de sincronización cloud y dashboard enterprise."@, "F5"@, "red"@, "run_phase5_smoke"@),
        direct_check_spec("kernel_slowpc"@, "Kernel Slow PC"@, "Diagnóstico de PC lenta con causas probables y acciones."@, "KPC"@, "orange"@, "run_kernel_slowpc_diagnostic"@),
        direct_check_spec("kernel_network"@, "Kernel Network"@, "Playbook guiado para conectividad y latencia de red."@, "KNET"@, "blue"@, "run_kernel_network_playbook"@),
        direct_check_spec("kernel_guardrails"@, "Kernel Guardrails"@, "Verificación activa de bloqueo para comandos destructivos."@, "SAFE"@, "red"@, "validate_kernel_guardrails"@),
        direct_check_spec("kernel_autonomous"@, "Kernel Autónomo"@, "Workflow IF/THEN con simulación o ejecución controlada y verificación posterior."@, "AUTO"@, "orange"@, "run_kernel_autonomous_workflow"@),
        direct_check_spec("kernel_automation_runs"@, "Kernel Runs"@, "Histórico de ejecuciones autónomas de la fase 6."@, "KRUN"@, "blue"@, "list_kernel_automation_runs"@),
        direct_check_spec("kernel_readiness"@, "Kernel Readiness"@, "Reporte de preparación operacional de diagnósticos y guardrails."@, "KRDY"@, "purple"@, "generate_kernelia_readiness_report"@),
        direct_check_spec("phase6_smoke"@, "Fase 6 Smoke"@, "Validación E2E de diagnósticos KernelIA y guardrails."@, "F6"@, "red"@, "run_phase6_smoke"@),
        direct_check_spec("latency_probe"@, "Latency Probe"@, "Mide latencia base del núcleo para monitoreo de respuesta."@, "LAT"@, "blue"@, "run_latency_probe"@),
        direct_check_spec("tool_benchmark"@, "Tool Benchmark"@, "Benchmark de herramientas críticas con métricas avg/p95."@, "BENCH"@, "orange"@, "run_tool_benchmark"@),
        direct_check_spec("performance_kpis"@, "Performance KPIs"@, "Consolidado de latencia y éxito operacional del sistema."@, "KPI"@, "purple"@, "get_performance_kpis"@),
        direct_check_spec("noc_global"@, "NOC Global"@, "Estado NOC global multiempresa con SLA base y riesgo operativo."@, "NOC"@, "purple"@, "get_noc_global_status"@),
        direct_check_spec("saas_licenses"@, "SaaS Licenses"@, "Inventario de licencias SaaS por tenant."@, "LIC"@, "blue"@, "list_saas_licenses"@),
        direct_check_spec("noc_report"@, "NOC Report"@, "Genera reporte enterprise NOC consolidado."@, "RPT"@, "orange"@, "generate_enterprise_noc_report"@),
        direct_check_spec("phase7_smoke"@, "Fase 7 Smoke"@, "Validación E2E de rendimiento y latencia."@, "F7"@, "red"@, "run_phase7_smoke"@),
        direct_check_spec("sla_status"@, "SLA Status"@, "Estado de cumplimiento de SLA por tasa de éxito histórica."@, "SLA"@, "blue"@, "calculate_sla_status"@),
        direct_check_spec("reliability_anomalies"@, "Reliability Anomalies"@, "Detección proactiva de anomalías de latencia y éxito."@, "ANOM"@, "orange"@, "detect_performance_anomalies"@),
        direct_check_spec("reliability_report"@, "Reliability Report"@, "Reporte consolidado de SLA, anomalías y acciones sugeridas."@, "REL"@, "purple"@, "generate_reliability_report"@),
        direct_check_spec("predictive_incidents"@, "Predictive Incidents"@, "Predicción temprana de incidentes operacionales con probabilidad."@, "PRED"@, "purple"@, "predict_operational_incidents"@),
        direct_check_spec("root_cause_ai"@, "Root Cause AI"@, "Explicación de causa raíz con confianza para degradaciones detectadas."@, "RCA"@, "orange"@, "explain_root_cause"@),
        direct_check_spec("autonomous_playbook"@, "Autonomous Playbook"@, "Genera playbook autónomo de prevención y respuesta operacional."@, "PLAY"@, "blue"@, "generate_autonomous_playbook"@),
        direct_check_spec("phase8_smoke"@, "Fase 8 Smoke"@, "Validación E2E de fiabilidad y cumplimiento SLA."@, "F8"@, "red"@, "run_phase8_smoke"@),
        direct_check_spec("self_healing_readiness"@, "Self-Healing Readiness"@, "Evalúa nivel de preparación de autocuración por riesgo/SLA."@, "SHR"@, "blue"@, "assess_self_healing_readiness"@),
        direct_check_spec("self_healing_plan"@, "Self-Healing Plan"@, "Genera plan preventivo de mitigación y autocuración."@, "PLAN"@, "orange"@, "generate_self_healing_plan"@),
        direct_check_spec("self_healing_runs"@, "Self-Healing Runs"@, "Historial de ciclos ejecutados o simulados."@, "RUN"@, "purple"@, "list_self_healing_runs"@),
        direct_check_spec("phase9_smoke"@, "Fase 9 Smoke"@, "Validación E2E de autocuración y prevención."@, "F9"@, "red"@, "run_phase9_smoke"@),
        direct_check_spec("go_live_readiness"@, "Go-Live Readiness"@, "Score consolidado de readiness para salida a producción."@, "GLR"@, "blue"@, "assess_go_live_readiness"@),
        direct_check_spec("go_live_controls"@, "Go-Live Controls"@, "Validación de controles de seguridad y gobernanza."@, "CTRL"@, "orange"@, "verify_go_live_controls"@),
        direct_check_spec("go_live_bundle"@, "Go-Live Bundle"@, "Genera paquete de evidencia y scorecard ejecutiva."@, "BUNDLE"@, "purple"@, "generate_go_live_bundle"@),
        direct_check_spec("phase10_smoke"@, "Fase 10 Smoke"@, "Validación E2E de cierre go-live AAA."@, "F10"@, "red"@, "run_phase10_smoke"@),
    ]
}

impl AppSettings {
    /// The pre-configured quick checks.
    pub fn default_quick_checks() -> (res: Vec<QuickCheck>)
        ensures
            quick_check_views(res@) == default_quick_checks_spec(),
    {
        let mut res: Vec<QuickCheck> = Vec::new();
        res.push(direct_check("system_health", "Salud del Sistema", "CPU, RAM, Disco y temperatura en tiempo real.", "SYS", "blue", "get_system_info"));
        res.push(slow_pc_check());
        res.push(direct_check("junk_scan", "Escaneo de Basura", "Detecta archivos temporales y espacio recuperable.", "JUNK", "yellow", "analyze_junk"));
        res.push(direct_check("network_check", "Chequeo de Red", "Ping, DNS y latencia hacia servidores clave.", "NET", "green", "run_network_diagnostic"));
        res.push(direct_check("autostart_audit", "Auditoria de Inicio", "Apps que inician con Windows y usan recursos.", "BOOT", "purple", "analyze_registry"));
        res.push(direct_check("health_score", "Health Score", "Riesgo operacional, anomalias y tendencia del equipo.", "HEALTH", "green", "health_overview"));
        res.push(direct_check("automation_plan", "Automatizacion Inteligente", "Evalua reglas SI/ENTONCES y plan de remediacion.", "AUTO", "blue", "run_automation_cycle"));
        res.push(direct_check("asset_inventory", "Inventario Automatico", "Escaneo de hardware/software del endpoint.", "INV", "yellow", "scan_asset_inventory"));
        res.push(direct_check("incident_tickets", "Tickets IA", "Consulta incidentes creados automaticamente.", "TICKET", "orange", "list_incident_tickets"));
        res.push(direct_check("ops_docs", "Documentacion IA", "Genera runbook tecnico con evidencia de operaciones.", "DOC", "red", "generate_operational_documentation"));
        res.push(direct_check("multi_tenant", "Multiempresa", "Vista consolidada de tenants, endpoints y salud operacional.", "TENANT", "purple", "cloud_multi_tenant_overview"));
        res.push(direct_check("multiagent", "Multiagente", "Diagnostico coordinado por agentes especialistas.", "AGENT", "green", "run_multiagent_diagnosis"));
        res.push(direct_check("remote_support", "Soporte Remoto", "Sesiones remotas activas/cerradas con trazabilidad.", "REMOTE", "blue", "list_remote_support_sessions"));
        res.push(direct_check("rollback_ops", "Rollback", "Snapshots operativos disponibles para reversión segura.", "ROLL", "orange", "list_rollback_snapshots"));
        res.push(direct_check("trusted_exec", "Trusted Exec", "Verifica integridad del binario contra attestations previas.", "TRUST", "yellow", "verify_release_attestation"));
        res.push(direct_check("phase3_smoke", "Fase 3 Smoke", "Validación E2E de multiempresa, multiagente, remoto, rollback y trusted exec.", "SMOKE", "red", "run_phase3_smoke"));
        res.push(direct_check("proactive_maintenance", "Mantenimiento Proactivo", "Ciclo preventivo con salud, multiagente y alerta operativa.", "PRO", "green", "run_proactive_maintenance"));
        res.push(direct_check("proactive_alerts", "Alertas Proactivas", "Historial de alertas preventivas y acciones sugeridas.", "ALERT", "orange", "list_proactive_alerts"));
        res.push(direct_check("multimodel_route", "Ruta Multimodelo", "Recomendación dinámica del modelo IA según contexto de tarea.", "ROUTE", "purple", "recommend_model_route"));
        res.push(direct_check("phase4_smoke", "Fase 4 Smoke", "Validación E2E de proactividad, scheduler y multimodelo.", "F4", "red", "run_phase4_smoke"));
        res.push(direct_check("cloud_sync", "Cloud Sync", "Sincroniza diagnóstico con Hackteck Cloud y genera ticket.", "CLOUD", "blue", "upload_cloud_report"));
        res.push(direct_check("enterprise_dashboard", "Enterprise Dashboard", "KPIs de operación cloud, tickets, alertas y casos.", "ENT", "purple", "get_enterprise_dashboard"));
        res.push(direct_check("enterprise_cases", "Casos Enterprise", "Consulta casos de soporte escalados en cloud.", "CASE", "orange", "list_support_cases"));
        res.push(direct_check("phase5_smoke", "Fase 5 Smoke", "Validación E2E de sincronización cloud y dashboard enterprise.", "F5", "red", "run_phase5_smoke"));
        res.push(direct_check("kernel_slowpc", "Kernel Slow PC", "Diagnóstico de PC lenta con causas probables y acciones.", "KPC", "orange", "run_kernel_slowpc_diagnostic"));
        res.push(direct_check("kernel_network", "Kernel Network", "Playbook guiado para conectividad y latencia de red.", "KNET", "blue", "run_kernel_network_playbook"));
        res.push(direct_check("kernel_guardrails", "Kernel Guardrails", "Verificación activa de bloqueo para comandos destructivos.", "SAFE", "red", "validate_kernel_guardrails"));
        res.push(direct_check("kernel_autonomous", "Kernel Autónomo", "Workflow IF/THEN con simulación o ejecución controlada y verificación posterior.", "AUTO", "orange", "run_kernel_autonomous_workflow"));
        res.push(direct_check("kernel_automation_runs", "Kernel Runs", "Histórico de ejecuciones autónomas de la fase 6.", "KRUN", "blue", "list_kernel_automation_runs"));
        res.push(direct_check("kernel_readiness", "Kernel Readiness", "Reporte de preparación operacional de diagnósticos y guardrails.", "KRDY", "purple", "generate_kernelia_readiness_report"));
        res.push(direct_check("phase6_smoke", "Fase 6 Smoke", "Validación E2E de diagnósticos KernelIA y guardrails.", "F6", "red", "run_phase6_smoke"));
        res.push(direct_check("latency_probe", "Latency Probe", "Mide latencia base del núcleo para monitoreo de respuesta.", "LAT", "blue", "run_latency_probe"));
        res.push(direct_check("tool_benchmark", "Tool Benchmark", "Benchmark de herramientas críticas con métricas avg/p95.", "BENCH", "orange", "run_tool_benchmark"));
        res.push(direct_check("performance_kpis", "Performance KPIs", "Consolidado de latencia y éxito operacional del sistema.", "KPI", "purple", "get_performance_kpis"));
        res.push(direct_check("noc_global", "NOC Global", "Estado NOC global multiempresa con SLA base y riesgo operativo.", "NOC", "purple", "get_noc_global_status"));
        res.push(direct_check("saas_licenses", "SaaS Licenses", "Inventario de licencias SaaS por tenant.", "LIC", "blue", "list_saas_licenses"));
        res.push(direct_check("noc_report", "NOC Report", "Genera reporte enterprise NOC consolidado.", "RPT", "orange", "generate_enterprise_noc_report"));
        res.push(direct_check("phase7_smoke", "Fase 7 Smoke", "Validación E2E de rendimiento y latencia.", "F7", "red", "run_phase7_smoke"));
        res.push(direct_check("sla_status", "SLA Status", "Estado de cumplimiento de SLA por tasa de éxito histórica.", "SLA", "blue", "calculate_sla_status"));
        res.push(direct_check("reliability_anomalies", "Reliability Anomalies", "Detección proactiva de anomalías de latencia y éxito.", "ANOM", "orange", "detect_performance_anomalies"));
        res.push(direct_check("reliability_report", "Reliability Report", "Reporte consolidado de SLA, anomalías y acciones sugeridas.", "REL", "purple", "generate_reliability_report"));
        res.push(direct_check("predictive_incidents", "Predictive Incidents", "Predicción temprana de incidentes operacionales con probabilidad.", "PRED", "purple", "predict_operational_incidents"));
        res.push(direct_check("root_cause_ai", "Root Cause AI", "Explicación de causa raíz con confianza para degradaciones detectadas.", "RCA", "orange", "explain_root_cause"));
        res.push(direct_check("autonomous_playbook", "Autonomous Playbook", "Genera playbook autónomo de prevención y respuesta operacional.", "PLAY", "blue", "generate_autonomous_playbook"));
        res.push(direct_check("phase8_smoke", "Fase 8 Smoke", "Validación E2E de fiabilidad y cumplimiento SLA.", "F8", "red", "run_phase8_smoke"));
        res.push(direct_check("self_healing_readiness", "Self-Healing Readiness", "Evalúa nivel de preparación de autocuración por riesgo/SLA.", "SHR", "blue", "assess_self_healing_readiness"));
        res.push(direct_check("self_healing_plan", "Self-Healing Plan", "Genera plan preventivo de mitigación y autocuración.", "PLAN", "orange", "generate_self_healing_plan"));
        res.push(direct_check("self_healing_runs", "Self-Healing Runs", "Historial de ciclos ejecutados o simulados.", "RUN", "purple", "list_self_healing_runs"));
        res.push(direct_check("phase9_smoke", "Fase 9 Smoke", "Validación E2E de autocuración y prevención.", "F9", "red", "run_phase9_smoke"));
        res.push(direct_check("go_live_readiness", "Go-Live Readiness", "Score consolidado de readiness para salida a producción.", "GLR", "blue", "assess_go_live_readiness"));
        res.push(direct_check("go_live_controls", "Go-Live Controls", "Validación de controles de seguridad y gobernanza.", "CTRL", "orange", "verify_go_live_controls"));
        res.push(direct_check("go_live_bundle", "Go-Live Bundle", "Genera paquete de evidencia y scorecard ejecutiva.", "BUNDLE", "purple", "generate_go_live_bundle"));
        res.push(direct_check("phase10_smoke", "Fase 10 Smoke", "Validación E2E de cierre go-live AAA.", "F10", "red", "run_phase10_smoke"));
        proof {
            let s = default_quick_checks_spec();
            assert(res@.len() == 53);
            assert forall|k: int| 0 <= k < 53 implies quick_check_view(#[trigger] res@[k]) == s[k] by {}
            assert(quick_check_views(res@) =~= s);
        }
        res
    }
}


// ---------------------------------------------------------------------------
// Upkeep of loaded settings
// ---------------------------------------------------------------------------

/// Two settings agree on everything but the quick checks.
pub open spec fn same_but_checks(a: AppSettings, b: AppSettings) -> bool {
    &&& a.version == b.version
    &&& a.first_run == b.first_run
    &&& a.selected_model == b.selected_model
    &&& a.rag_engine_enabled == b.rag_engine_enabled
    &&& a.rag_compare_mode == b.rag_compare_mode
    &&& a.rag_debug_panel == b.rag_debug_panel
    &&& a.rag_show_confidence_badge == b.rag_show_confidence_badge
    &&& a.models == b.models
    &&& a.ollama == b.ollama
    &&& a.language == b.language
    &&& a.theme == b.theme
    &&& a.max_history_messages == b.max_history_messages
    &&& a.confirm_dangerous_actions == b.confirm_dangerous_actions
    &&& a.user_role == b.user_role
    &&& a.users == b.users
    &&& a.auth == b.auth
    &&& a.tecnico_critical_password_encrypted == b.tecnico_critical_password_encrypted
    &&& a.megaboss_password_encrypted == b.megaboss_password_encrypted
    &&& a.megaboss_unlock_until_epoch == b.megaboss_unlock_until_epoch
}

/// Two settings agree on everything but the models.
pub open spec fn same_but_models(a: AppSettings, b: AppSettings) -> bool {
    &&& a.version == b.version
    &&& a.first_run == b.first_run
    &&& a.selected_model == b.selected_model
    &&& a.rag_engine_enabled == b.rag_engine_enabled
    &&& a.rag_compare_mode == b.rag_compare_mode
    &&& a.rag_debug_panel == b.rag_debug_panel
    &&& a.rag_show_confidence_badge == b.rag_show_confidence_badge
    &&& a.ollama == b.ollama
    &&& a.language == b.language
    &&& a.theme == b.theme
    &&& a.max_history_messages == b.max_history_messages
    &&& a.confirm_dangerous_actions == b.confirm_dangerous_actions
    &&& a.user_role == b.user_role
    &&& a.users == b.users
    &&& a.auth == b.auth
    &&& a.tecnico_critical_password_encrypted == b.tecnico_critical_password_encrypted
    &&& a.megaboss_password_encrypted == b.megaboss_password_encrypted
    &&& a.megaboss_unlock_until_epoch == b.megaboss_unlock_until_epoch
    &&& a.quick_checks == b.quick_checks
}

/// Two settings agree on everything but the models and the selected one.
pub open spec fn same_but_model_choice(a: AppSettings, b: AppSettings) -> bool {
    &&& a.version == b.version
    &&& a.first_run == b.first_run
    &&& a.rag_engine_enabled == b.rag_engine_enabled
    &&& a.rag_compare_mode == b.rag_compare_mode
    &&& a.rag_debug_panel == b.rag_debug_panel
    &&& a.rag_show_confidence_badge == b.rag_show_confidence_badge
    &&& a.ollama == b.ollama
    &&& a.language == b.language
    &&& a.theme == b.theme
    &&& a.max_history_messages == b.max_history_messages
    &&& a.confirm_dangerous_actions == b.confirm_dangerous_actions
    &&& a.user_role == b.user_role
    &&& a.users == b.users
    &&& a.auth == b.auth
    &&& a.tecnico_critical_password_encrypted == b.tecnico_critical_password_encrypted
    &&& a.megaboss_password_encrypted == b.megaboss_password_encrypted
    &&& a.megaboss_unlock_until_epoch == b.megaboss_unlock_until_epoch
    &&& a.quick_checks == b.quick_checks
}

/// A quick check as plain values.
pub type QuickCheckView = (Seq<char>, Seq<char>, Seq<char>, Seq<char>, Seq<char>, QuickCheckType, Seq<Seq<char>>, Option<Seq<char>>, Seq<Seq<char>>);

/// The first check at or after `i` with identifier `id`.
pub open spec fn check_index(checks: Seq<QuickCheckView>, id: Seq<char>, i: int) -> Option<int>
    decreases checks.len() - i,
{
    if i < 0 || i >= checks.len() {
        None
    } else if checks[i].0 == id {
        Some(i)
    } else {
        check_index(checks, id, i + 1)
    }
}

/// Bringing one default check in: a check with its identifier is replaced by
/// the default when they differ; a missing one is appended.
pub open spec fn refresh_step(st: (Seq<QuickCheckView>, bool), d: QuickCheckView) -> (Seq<QuickCheckView>, bool) {
    match check_index(st.0, d.0, 0) {
        Some(j) => if st.0[j] != d { (st.0.update(j, d), true) } else { st },
        None => (st.0.push(d), true),
    }
}

/// The checks after bringing in the first `n` defaults, and whether any
/// changed.
pub open spec fn refresh_fold(checks: Seq<QuickCheckView>, defaults: Seq<QuickCheckView>, n: nat) -> (Seq<QuickCheckView>, bool)
    decreases n,
{
    if n == 0 || n > defaults.len() {
        (checks, false)
    } else {
        refresh_step(refresh_fold(checks, defaults, (n - 1) as nat), defaults[n - 1])
    }
}

fn strings_equal(a: &Vec<String>, b: &Vec<String>) -> (r: bool)
    ensures
        r == (string_views(a@) == string_views(b@)),
{
    if a.len() != b.len() {
        assert(string_views(a@).len() != string_views(b@).len());
        return false;
    }
    let mut k: usize = 0;
    while k < a.len()
        invariant
            k <= a.len(),
            a.len() == b.len(),
            forall|j: int| 0 <= j < k ==> string_views(a@)[j] == string_views(b@)[j],
        decreases a.len() - k,
    {
        if !str_eq(a[k].as_str(), b[k].as_str()) {
            assert(string_views(a@)[k as int] != string_views(b@)[k as int]);
            return false;
        }
        k += 1;
    }
    assert(string_views(a@) =~= string_views(b@));
    true
}

fn same_check(a: &QuickCheck, b: &QuickCheck) -> (r: bool)
    ensures
        r == (quick_check_view(*a) == quick_check_view(*b)),
{
    let prompts = match (&a.prompt, &b.prompt) {
        (Some(x), Some(y)) => str_eq(x.as_str(), y.as_str()),
        (None, None) => true,
        _ => false,
    };
    str_eq(a.id.as_str(), b.id.as_str()) && str_eq(a.label.as_str(), b.label.as_str())
        && str_eq(a.description.as_str(), b.description.as_str()) && str_eq(a.icon.as_str(), b.icon.as_str())
        && str_eq(a.color.as_str(), b.color.as_str()) && a.kind == b.kind
        && strings_equal(&a.required_permissions, &b.required_permissions) && prompts
        && strings_equal(&a.tool_pipeline, &b.tool_pipeline)
}

fn find_check(checks: &Vec<QuickCheck>, id: &str) -> (r: Option<usize>)
    ensures
        match r {
            Some(j) => j < checks.len() && check_index(quick_check_views(checks@), id@, 0) == Some(j as int),
            None => check_index(quick_check_views(checks@), id@, 0) is None,
        },
{
    let ghost v = quick_check_views(checks@);
    let mut k: usize = 0;
    while k < checks.len()
        invariant
            k <= checks.len(),
            v == quick_check_views(checks@),
            check_index(v, id@, 0) == check_index(v, id@, k as int),
        decreases checks.len() - k,
    {
        assert(v[k as int].0 == checks@[k as int].id@);
        if str_eq(checks[k].id.as_str(), id) {
            return Some(k);
        }
        k += 1;
    }
    None
}

/// The models other than the retired `gemma4-local`, in order.
pub open spec fn without_gemma4(models: Seq<ModelConfig>) -> Seq<ModelConfig>
    decreases models.len(),
{
    if models.len() == 0 {
        models
    } else if models.last().id@ == "gemma4-local"@ {
        without_gemma4(models.drop_last())
    } else {
        without_gemma4(models.drop_last()).push(models.last())
    }
}

/// The local Gemma 3 model, served at `base_url`.
pub open spec fn gemma3_model_view(base_url: Seq<char>) -> (Seq<char>, Seq<char>, Seq<char>, Seq<char>, bool, Seq<char>, bool, bool, u32) {
    ("gemma3-local"@, "Gemma 3 Local (Docker)"@, "docker-model-runner"@, base_url, false, "gemma:2b"@, true, true, 500u32)
}

/// A model's base URL after moving from the old runner ports and paths.
pub open spec fn migrated_url(provider: Seq<char>, url: Seq<char>) -> Seq<char> {
    let u1 = if seq_contains(url, "localhost:21434"@) || seq_contains(url, "localhost:11435"@) {
        replace_all(url, "localhost:21434"@, "localhost:11435"@)
    } else {
        url
    };
    if provider == "docker-model-runner"@ && seq_contains(u1, "/engines/llama.cpp/v1"@) {
        replace_all(u1, "/engines/llama.cpp/v1"@, "/v1"@)
    } else {
        u1
    }
}

/// Whether migrating a model changes anything.
pub open spec fn migration_changes(m: ModelConfig) -> bool {
    seq_contains(m.base_url@, "localhost:21434"@) || seq_contains(m.base_url@, "localhost:11435"@)
        || (m.provider@ == "docker-model-runner"@ && seq_contains(migrated_url_first(m.base_url@), "/engines/llama.cpp/v1"@))
        || (m.id@ == "gemma3-local"@ && m.model_name@ != "gemma:2b"@)
}

/// A base URL after the port migration alone.
pub open spec fn migrated_url_first(url: Seq<char>) -> Seq<char> {
    if seq_contains(url, "localhost:21434"@) || seq_contains(url, "localhost:11435"@) {
        replace_all(url, "localhost:21434"@, "localhost:11435"@)
    } else {
        url
    }
}

/// A model after the migration: its URL moved and, for the local Gemma 3,
/// the `gemma:2b` model name; everything else kept.
pub open spec fn migrated_model(old: ModelConfig, new: ModelConfig) -> bool {
    &&& new.id == old.id
    &&& new.name == old.name
    &&& new.provider == old.provider
    &&& new.api_key == old.api_key
    &&& new.supports_function_calling == old.supports_function_calling
    &&& new.is_local == old.is_local
    &&& new.max_tokens == old.max_tokens
    &&& new.base_url@ == migrated_url(old.provider@, old.base_url@)
    &&& new.model_name@ == (if old.id@ == "gemma3-local"@ { "gemma:2b"@ } else { old.model_name@ })
}

impl AppSettings {
    /// Brings the pre-configured quick checks in: a check whose identifier
    /// matches a default takes the default's content; a missing default is
    /// appended. Tells whether anything changed.
    pub fn refresh_default_quick_checks(&mut self) -> (changed: bool)
        ensures
            (quick_check_views(final(self).quick_checks@), changed)
                == refresh_fold(quick_check_views(old(self).quick_checks@), default_quick_checks_spec(), default_quick_checks_spec().len()),
            same_but_checks(*final(self), *old(self)),
    {
        let defaults = Self::default_quick_checks();
        let ghost dv = quick_check_views(defaults@);
        let ghost start = quick_check_views(self.quick_checks@);
        assert(dv.len() == defaults@.len());
        let mut changed = false;
        let mut pending = defaults;
        let mut remaining: Vec<QuickCheck> = Vec::new();
        while pending.len() > 0
            invariant
                remaining@.len() + pending@.len() == dv.len(),
                dv.len() <= usize::MAX,
                quick_check_views(pending@) + quick_check_views(remaining@).reverse() == dv,
            decreases pending.len(),
        {
            let d = pending.pop().unwrap();
            let ghost before = remaining@;
            remaining.push(d);
            proof {
                assert(quick_check_views(remaining@) =~= quick_check_views(before).push(quick_check_view(d)));
                assert(quick_check_views(remaining@).reverse() =~= seq![quick_check_view(d)] + quick_check_views(before).reverse());
            }
        }
        assert(quick_check_views(remaining@).reverse() =~= dv);
        let mut n: usize = 0;
        while remaining.len() > 0
            invariant
                n + remaining@.len() == dv.len(),
                dv.len() <= usize::MAX,
                quick_check_views(remaining@).reverse() == dv.skip(n as int),
                (quick_check_views(self.quick_checks@), changed) == refresh_fold(start, dv, n as nat),
                same_but_checks(*self, *old(self)),
            decreases remaining.len(),
        {
            let ghost rv = quick_check_views(remaining@);
            let d = remaining.pop().unwrap();
            proof {
                assert(rv.reverse()[0] == rv.last());
                assert(dv.skip(n as int)[0] == dv[n as int]);
                assert(quick_check_views(remaining@) =~= rv.drop_last());
                assert(rv.drop_last().reverse() =~= rv.reverse().skip(1));
                assert(dv.skip(n as int).skip(1) =~= dv.skip(n + 1));
            }
            let ghost st = (quick_check_views(self.quick_checks@), changed);
            match find_check(&self.quick_checks, d.id.as_str()) {
                Some(j) => {
                    if !same_check(&self.quick_checks[j], &d) {
                        let ghost before = self.quick_checks@;
                        self.quick_checks.set(j, d);
                        assert(quick_check_views(self.quick_checks@) =~= quick_check_views(before).update(j as int, dv[n as int]));
                        changed = true;
                    }
                },
                None => {
                    let ghost before = self.quick_checks@;
                    self.quick_checks.push(d);
                    assert(quick_check_views(self.quick_checks@) =~= quick_check_views(before).push(dv[n as int]));
                    changed = true;
                },
            }
            assert((quick_check_views(self.quick_checks@), changed) == refresh_step(st, dv[n as int]));
            n += 1;
        }
        changed
    }

    /// Moves models off the old runner ports and paths and pins the local
    /// Gemma 3 to `gemma:2b`. Tells whether anything changed.
    pub fn migrate_legacy_model_runner_urls(&mut self) -> (changed: bool)
        ensures
            final(self).models@.len() == old(self).models@.len(),
            forall|k: int| 0 <= k < final(self).models@.len() ==> migrated_model(old(self).models@[k], #[trigger] final(self).models@[k]),
            changed == exists|k: int| 0 <= k < old(self).models@.len() && migration_changes(#[trigger] old(self).models@[k]),
            same_but_models(*final(self), *old(self)),
    {
        let mut changed = false;
        let mut k: usize = 0;
        while k < self.models.len()
            invariant
                k <= self.models.len(),
                self.models@.len() == old(self).models@.len(),
                forall|j: int| 0 <= j < k ==> migrated_model(old(self).models@[j], #[trigger] self.models@[j]),
                forall|j: int| k <= j < self.models@.len() ==> #[trigger] self.models@[j] == old(self).models@[j],
                changed == exists|j: int| 0 <= j < k && migration_changes(#[trigger] old(self).models@[j]),
                same_but_models(*self, *old(self)),
            decreases self.models.len() - k,
        {
            let mut m = copy_model(&self.models[k]);
            let url = chars_of(m.base_url.as_str());
            let mut this_changed = false;
            let url1 = if contains(&url, "localhost:21434") || contains(&url, "localhost:11435") {
                this_changed = true;
                replace_chars(&url, "localhost:21434", "localhost:11435")
            } else {
                url
            };
            let url2 = if str_eq(m.provider.as_str(), "docker-model-runner") && contains(&url1, "/engines/llama.cpp/v1") {
                this_changed = true;
                replace_chars(&url1, "/engines/llama.cpp/v1", "/v1")
            } else {
                url1
            };
            m.base_url = string_from_chars(&url2);
            if str_eq(m.id.as_str(), "gemma3-local") {
                if !str_eq(m.model_name.as_str(), "gemma:2b") {
                    this_changed = true;
                }
                m.model_name = String::from_str("gemma:2b");
            }
            assert(this_changed == migration_changes(old(self).models@[k as int]));
            let ghost before = self.models@;
            self.models.set(k, m);
            proof {
                assert forall|j: int| 0 <= j < k + 1 implies migrated_model(old(self).models@[j], #[trigger] self.models@[j]) by {
                    if j < k {
                        assert(self.models@[j] == before[j]);
                    }
                }
                if this_changed {
                    assert(migration_changes(old(self).models@[k as int]));
                }
            }
            changed = changed || this_changed;
            k += 1;
        }
        changed
    }
}


/// Whether some model is the local Gemma 3.
pub open spec fn has_gemma3(models: Seq<ModelConfig>) -> bool {
    exists|k: int| 0 <= k < models.len() && (#[trigger] models[k]).id@ == "gemma3-local"@
}

/// Whether enforcing the local models changes anything: a retired model is
/// dropped, the local Gemma 3 is missing, or another model is selected.
pub open spec fn enforcement_changes(models: Seq<ModelConfig>, selected: Seq<char>) -> bool {
    without_gemma4(models).len() != models.len() || !has_gemma3(without_gemma4(models)) || selected != "gemma3-local"@
}

/// The identifiers of a list of models.
pub open spec fn model_ids(models: Seq<ModelConfig>) -> Seq<Seq<char>> {
    models.map_values(|m: ModelConfig| m.id@)
}

proof fn lemma_without_gemma4_ids(a: Seq<ModelConfig>, b: Seq<ModelConfig>)
    requires
        model_ids(a) == model_ids(b),
    ensures
        model_ids(without_gemma4(a)) == model_ids(without_gemma4(b)),
        without_gemma4(a).len() == without_gemma4(b).len(),
        has_gemma3(without_gemma4(a)) == has_gemma3(without_gemma4(b)),
    decreases a.len(),
{
    assert(a.len() == model_ids(a).len() && b.len() == model_ids(b).len());
    if a.len() > 0 {
        assert(model_ids(a.drop_last()) =~= model_ids(a).drop_last());
        assert(model_ids(b.drop_last()) =~= model_ids(b).drop_last());
        assert(model_ids(a)[a.len() - 1] == model_ids(b)[b.len() - 1]);
        lemma_without_gemma4_ids(a.drop_last(), b.drop_last());
        let pa = without_gemma4(a.drop_last());
        let pb = without_gemma4(b.drop_last());
        if a.last().id@ != "gemma4-local"@ {
            let ra = pa.push(a.last());
            let rb = pb.push(b.last());
            assert(model_ids(ra) =~= model_ids(pa).push(a.last().id@));
            assert(model_ids(rb) =~= model_ids(pb).push(b.last().id@));
            if has_gemma3(ra) {
                let k = choose|k: int| 0 <= k < ra.len() && (#[trigger] ra[k]).id@ == "gemma3-local"@;
                assert(model_ids(ra)[k] == model_ids(rb)[k]);
                assert(rb[k].id@ == "gemma3-local"@);
            }
            if has_gemma3(rb) {
                let k = choose|k: int| 0 <= k < rb.len() && (#[trigger] rb[k]).id@ == "gemma3-local"@;
                assert(model_ids(ra)[k] == model_ids(rb)[k]);
                assert(ra[k].id@ == "gemma3-local"@);
            }
        }
    }
}

fn local_gemma3(base_url: &str) -> (m: ModelConfig)
    ensures
        model_view(m) == gemma3_model_view(base_url@),
{
    model_config("gemma3-local", "Gemma 3 Local (Docker)", "docker-model-runner", base_url, "gemma:2b", true, true, 500)
}

impl AppSettings {
    /// Keeps the application on its single local model: drops the retired
    /// `gemma4-local`, adds the local Gemma 3 (served at `gemma3_base_url`)
    /// first when it is missing, and selects it. Tells whether anything
    /// changed.
    pub fn enforce_local_docker_models(&mut self, gemma3_base_url: &str) -> (changed: bool)
        ensures
            has_gemma3(without_gemma4(old(self).models@)) ==> final(self).models@ == without_gemma4(old(self).models@),
            !has_gemma3(without_gemma4(old(self).models@)) ==> {
                &&& final(self).models@.len() == without_gemma4(old(self).models@).len() + 1
                &&& model_view(final(self).models@[0]) == gemma3_model_view(gemma3_base_url@)
                &&& final(self).models@.skip(1) == without_gemma4(old(self).models@)
            },
            final(self).selected_model@ == "gemma3-local"@,
            changed == enforcement_changes(old(self).models@, old(self).selected_model@),
            same_but_model_choice(*final(self), *old(self)),
    {
        let mut kept: Vec<ModelConfig> = Vec::new();
        let mut k: usize = 0;
        while k < self.models.len()
            invariant
                k <= self.models.len(),
                self.models == old(self).models,
                kept@ == without_gemma4(self.models@.take(k as int)),
            decreases self.models.len() - k,
        {
            assert(self.models@.take(k as int + 1).drop_last() =~= self.models@.take(k as int));
            if !str_eq(self.models[k].id.as_str(), "gemma4-local") {
                let m = copy_model(&self.models[k]);
                kept.push(m);
            }
            k += 1;
        }
        assert(self.models@.take(self.models.len() as int) =~= self.models@);
        let mut changed = kept.len() != self.models.len();
        let mut found = false;
        let mut j: usize = 0;
        while j < kept.len()
            invariant
                j <= kept.len(),
                found == exists|i: int| 0 <= i < j && (#[trigger] kept@[i]).id@ == "gemma3-local"@,
            decreases kept.len() - j,
        {
            if str_eq(kept[j].id.as_str(), "gemma3-local") {
                found = true;
            }
            j += 1;
        }
        if !found {
            let ghost before = kept@;
            kept.insert(0, local_gemma3(gemma3_base_url));
            assert(kept@.skip(1) =~= before);
            changed = true;
        }
        self.models = kept;
        if !str_eq(self.selected_model.as_str(), "gemma3-local") {
            self.selected_model = String::from_str("gemma3-local");
            changed = true;
        } else {
            proof { reveal_strlit("gemma3-local"); }
            assert(self.selected_model@ =~= "gemma3-local"@);
        }
        changed
    }

    /// Settings just read from disk, made ready: the quick checks brought up
    /// to date, the base accounts restored when none are left, a technician
    /// password set when missing, model URLs migrated, the local model
    /// enforced, the session signed out and the role back to viewer. Tells
    /// whether anything changed and must be saved.
    pub fn normalize_after_load(&mut self, gemma3_base_url: &str) -> (changed: bool)
        ensures
            signed_out(final(self).auth),
            final(self).user_role == UserRole::Viewer,
            old(self).users@.len() > 0 ==> final(self).users == old(self).users,
            old(self).users@.len() == 0 ==> final(self).users@.len() == 3,
            old(self).tecnico_critical_password_encrypted is Some ==> final(self).tecnico_critical_password_encrypted == old(self).tecnico_critical_password_encrypted,
            final(self).selected_model@ == "gemma3-local"@,
            quick_check_views(final(self).quick_checks@)
                == refresh_fold(quick_check_views(old(self).quick_checks@), default_quick_checks_spec(), default_quick_checks_spec().len()).0,
            changed == (refresh_fold(quick_check_views(old(self).quick_checks@), default_quick_checks_spec(), default_quick_checks_spec().len()).1
                || old(self).users@.len() == 0
                || old(self).tecnico_critical_password_encrypted is None
                || (exists|k: int| 0 <= k < old(self).models@.len() && migration_changes(#[trigger] old(self).models@[k]))
                || enforcement_changes(old(self).models@, old(self).selected_model@)
                || !signed_out(old(self).auth)
                || old(self).user_role != UserRole::Viewer),
    {
        let mut changed = false;
        if self.refresh_default_quick_checks() {
            changed = true;
        }
        if self.users.len() == 0 {
            self.users = Self::default_users();
            changed = true;
        }
        if self.tecnico_critical_password_encrypted.is_none() {
            self.tecnico_critical_password_encrypted = match Encryption::encrypt("KernelIA!CriticalProc2026") {
                Ok(c) => Some(c),
                Err(_) => None,
            };
            changed = true;
        }
        let ghost before_migration = self.models@;
        if self.migrate_legacy_model_runner_urls() {
            changed = true;
        }
        proof {
            assert(model_ids(self.models@) =~= model_ids(before_migration));
            lemma_without_gemma4_ids(self.models@, before_migration);
        }
        if self.enforce_local_docker_models(gemma3_base_url) {
            changed = true;
        }
        if self.auth.is_authenticated || self.auth.current_username.is_some() || self.auth.current_profile.is_some()
            || self.auth.tecnico_critical_unlock_until_epoch.is_some() {
            self.auth = AuthState::default();
            changed = true;
        }
        if self.user_role != UserRole::Viewer {
            self.user_role = UserRole::Viewer;
            changed = true;
        }
        changed
    }
}

// ---------------------------------------------------------------------------
// Laws
// ---------------------------------------------------------------------------

/// Deleting an account that was just created under a trimmed name that no
/// other account had (and that is not the base superadmin) gives back the
/// accounts there were before.
pub proof fn lemma_create_then_delete(users: Seq<UserAccount>, created: UserAccount, username: Seq<char>, profile: SupportProfile)
    requires
        created_account(created, username, profile),
        username == trim_seq(username),
        !name_taken(users, username),
    ensures
        remove_matching(users.push(created), trim_seq(username)) == users,
{
    assert(users.push(created).drop_last() =~= users);
    assert(eq_ignore_ascii_case_spec(created.username@, username));
    lemma_remove_absent(users, username);
}

proof fn lemma_remove_absent(users: Seq<UserAccount>, name: Seq<char>)
    requires
        !name_taken(users, name),
    ensures
        remove_matching(users, name) == users,
    decreases users.len(),
{
    if users.len() > 0 {
        let prev = users.drop_last();
        assert(!eq_ignore_ascii_case_spec(users[users.len() - 1].username@, name));
        assert forall|i: int| 0 <= i < prev.len() implies !eq_ignore_ascii_case_spec(#[trigger] prev[i].username@, name) by {
            assert(prev[i] == users[i]);
        }
        lemma_remove_absent(prev, name);
        assert(prev.push(users.last()) =~= users);
    }
}

/// After signing out nobody is signed in, whoever was before.
pub proof fn lemma_logout_clears_session(before: AppSettings, after: AppSettings)
    requires
        signed_out(after.auth),
        after.user_role == UserRole::Viewer,
        same_but_session(after, before),
    ensures
        !after.auth.is_authenticated,
        after.auth.current_profile != Some(SupportProfile::Superusuario),
        after.users == before.users,
{
}


// ---------------------------------------------------------------------------
// Settings taken from the environment
// ---------------------------------------------------------------------------

/// The models whose API keys may come from the environment, each with the
/// variable that holds its key.
pub open spec fn env_key_sources_spec() -> Seq<(Seq<char>, Seq<char>)> {
    seq![
        ("llama-groq"@, "GROQ_API_KEY"@),
        ("deepseek-v3"@, "DEEPSEEK_API_KEY"@),
        ("qwen-openrouter"@, "OPENROUTER_API_KEY"@),
        ("glm-5"@, "GLM_API_KEY"@),
        ("gemini-flash"@, "GEMINI_API_KEY"@),
    ]
}

/// The models whose API keys may come from the environment, with their
/// variables.
pub fn env_key_sources() -> (r: Vec<(&'static str, &'static str)>)
    ensures
        r@.map_values(|p: (&str, &str)| (p.0@, p.1@)) == env_key_sources_spec(),
{
    let r = vec![
        ("llama-groq", "GROQ_API_KEY"),
        ("deepseek-v3", "DEEPSEEK_API_KEY"),
        ("qwen-openrouter", "OPENROUTER_API_KEY"),
        ("glm-5", "GLM_API_KEY"),
        ("gemini-flash", "GEMINI_API_KEY"),
    ];
    assert(r@.map_values(|p: (&str, &str)| (p.0@, p.1@)) =~= env_key_sources_spec());
    r
}

/// A switch read from an environment variable: `1`, `true`, `yes` or `on`,
/// in any letter case, turn it on, any other value off, and an unset
/// variable leaves the default.
pub open spec fn env_flag_spec(value: Option<Seq<char>>, default: bool) -> bool {
    match value {
        Some(v) => {
            let l = lowercase_of(v);
            l == "1"@ || l == "true"@ || l == "yes"@ || l == "on"@
        },
        None => default,
    }
}

/// A switch read from an environment variable.
pub fn env_flag(value: Option<&str>, default: bool) -> (r: bool)
    ensures
        r == env_flag_spec(match value { Some(v) => Some(v@), None => None }, default),
{
    match value {
        Some(v) => {
            let l = to_lowercase(v);
            str_eq(l.as_str(), "1") || str_eq(l.as_str(), "true") || str_eq(l.as_str(), "yes") || str_eq(l.as_str(), "on")
        },
        None => default,
    }
}

/// Whether the retrieval engine is on by default (`KERNELIA_RAG_ENABLED`;
/// on when unset).
pub fn default_rag_engine_enabled(env_value: Option<&str>) -> (r: bool)
    ensures
        r == env_flag_spec(match env_value { Some(v) => Some(v@), None => None }, true),
{
    env_flag(env_value, true)
}

/// Whether comparison mode is on by default (`KERNELIA_RAG_COMPARE_MODE`;
/// off when unset).
pub fn default_rag_compare_mode(env_value: Option<&str>) -> (r: bool)
    ensures
        r == env_flag_spec(match env_value { Some(v) => Some(v@), None => None }, false),
{
    env_flag(env_value, false)
}

/// Whether the debug panel is on by default (`KERNELIA_RAG_DEBUG_PANEL`;
/// off when unset).
pub fn default_rag_debug_panel(env_value: Option<&str>) -> (r: bool)
    ensures
        r == env_flag_spec(match env_value { Some(v) => Some(v@), None => None }, false),
{
    env_flag(env_value, false)
}

/// The confidence badge is shown by default.
pub fn default_rag_show_confidence_badge() -> (r: bool)
    ensures
        r,
{
    true
}

/// An optional text as characters.
pub open spec fn str_opt(o: Option<&str>) -> Option<Seq<char>> {
    match o {
        Some(v) => Some(v@),
        None => None,
    }
}

/// An environment value that is set and not blank.
pub open spec fn usable_env(env: Option<Seq<char>>) -> bool {
    env matches Some(v) && trim_seq(v).len() > 0
}

/// Where the local Gemma 3 is served by default: `KERNELIA_GEMMA3_BASE_URL`
/// when set and not blank, else the local model runner.
pub open spec fn default_gemma3_url_spec(env: Option<Seq<char>>) -> Seq<char> {
    if usable_env(env) { env->0 } else { "http://localhost:11435/v1"@ }
}

/// Where the local Gemma 3 is served by default.
pub fn default_gemma3_base_url(env_value: Option<&str>) -> (r: String)
    ensures
        r@ == default_gemma3_url_spec(match env_value { Some(v) => Some(v@), None => None }),
{
    match env_value {
        Some(v) => {
            if trim(v).len() > 0 {
                return String::from_str(v);
            }
            String::from_str("http://localhost:11435/v1")
        },
        None => String::from_str("http://localhost:11435/v1"),
    }
}

/// The base URL of a configured Gemma 3 once refreshed: the environment's
/// when usable, else the runner's default when it was blank, else as it was.
pub open spec fn refreshed_url(old: Seq<char>, env: Option<Seq<char>>) -> Seq<char> {
    if usable_env(env) {
        env->0
    } else if trim_seq(old).len() == 0 {
        "http://localhost:11435/v1"@
    } else {
        old
    }
}

/// A configured Gemma 3 brought to the current local setup; its
/// identifier and stored key stay.
pub open spec fn gemma3_refreshed(new: ModelConfig, old: ModelConfig, env: Option<Seq<char>>) -> bool {
    &&& new.id == old.id
    &&& new.api_key == old.api_key
    &&& new.name@ == "Gemma 3 Local (Docker)"@
    &&& new.provider@ == "docker-model-runner"@
    &&& new.base_url@ == refreshed_url(old.base_url@, env)
    &&& new.model_name@ == "gemma:2b"@
    &&& new.supports_function_calling
    &&& new.is_local
    &&& new.max_tokens == 500
}

/// The models after the local model is refreshed: `gemma4-local` dropped,
/// and the first Gemma 3 refreshed, or a new one added first.
pub open spec fn gemma3_refresh_spec(old: Seq<ModelConfig>, new: Seq<ModelConfig>, env: Option<Seq<char>>) -> bool {
    let base = without_gemma4(old);
    match first_model(base, "gemma3-local"@, 0) {
        Some(k) => {
            &&& new.len() == base.len()
            &&& forall|j: int| 0 <= j < base.len() && j != k ==> new[j] == base[j]
            &&& gemma3_refreshed(new[k], base[k], env)
        },
        None => {
            &&& new.len() == base.len() + 1
            &&& model_view(new[0]) == gemma3_model_view(default_gemma3_url_spec(env))
            &&& new.skip(1) == base
        },
    }
}

/// A value that is set and not empty.
pub open spec fn nonempty_value(o: Option<Seq<char>>) -> bool {
    o matches Some(v) && v.len() > 0
}

/// A stored key that seals the given value.
pub open spec fn key_seals(key: Option<String>, value: Option<Seq<char>>) -> bool {
    key matches Some(c) && value matches Some(v) && seals(c@, v)
}

/// The models after keys from the environment are stored: each keeps all
/// but its key; a model that had a key keeps it; a key appears only on the
/// first model named by a source whose value is set and not empty, and it
/// is that value, sealed.
pub open spec fn keys_injected_spec(old: Seq<ModelConfig>, new: Seq<ModelConfig>, values: Seq<Option<Seq<char>>>) -> bool {
    &&& new.len() == old.len()
    &&& forall|j: int| 0 <= j < old.len() ==> (#[trigger] new[j]) == (ModelConfig { api_key: new[j].api_key, ..old[j] })
    &&& forall|j: int| 0 <= j < old.len() && old[j].api_key is Some ==> (#[trigger] new[j]).api_key == old[j].api_key
    &&& forall|j: int| 0 <= j < old.len() && (#[trigger] new[j]).api_key != old[j].api_key ==>
        exists|i: int| 0 <= i < values.len() && i < env_key_sources_spec().len()
            && env_key_sources_spec()[i].0 == old[j].id@
            && first_model(old, old[j].id@, 0) == Some(j)
            && nonempty_value(#[trigger] values[i])
            && key_seals(new[j].api_key, values[i])
}

fn refresh_gemma3_model(m: &ModelConfig, env_value: Option<&str>) -> (r: ModelConfig)
    ensures
        gemma3_refreshed(r, *m, match env_value { Some(v) => Some(v@), None => None }),
{
    let mut url = m.base_url.clone();
    match env_value {
        Some(v) => {
            if trim(v).len() > 0 {
                url = String::from_str(v);
            }
        },
        None => {},
    }
    if trim(url.as_str()).len() == 0 {
        url = default_gemma3_base_url(env_value);
    }
    ModelConfig {
        id: m.id.clone(),
        name: String::from_str("Gemma 3 Local (Docker)"),
        provider: String::from_str("docker-model-runner"),
        base_url: url,
        api_key: match &m.api_key {
            Some(k) => Some(k.clone()),
            None => None,
        },
        model_name: String::from_str("gemma:2b"),
        supports_function_calling: true,
        is_local: true,
        max_tokens: 500,
    }
}

impl AppSettings {
    /// Keeps the single local model current: drops the retired
    /// `gemma4-local`, then refreshes the first Gemma 3 (provider, name,
    /// model and limits, and its URL from `KERNELIA_GEMMA3_BASE_URL` when
    /// that is usable) or adds one first.
    pub fn refresh_local_gemma3(&mut self, env_base_url: Option<&str>)
        ensures
            gemma3_refresh_spec(old(self).models@, final(self).models@, str_opt(env_base_url)),
            same_but_models(*final(self), *old(self)),
    {
        let mut kept: Vec<ModelConfig> = Vec::new();
        let mut k: usize = 0;
        while k < self.models.len()
            invariant
                k <= self.models.len(),
                self.models == old(self).models,
                kept@ == without_gemma4(self.models@.take(k as int)),
            decreases self.models.len() - k,
        {
            assert(self.models@.take(k as int + 1).drop_last() =~= self.models@.take(k as int));
            if !str_eq(self.models[k].id.as_str(), "gemma4-local") {
                let m = copy_model(&self.models[k]);
                kept.push(m);
            }
            k += 1;
        }
        assert(self.models@.take(self.models.len() as int) =~= self.models@);
        let ghost base = kept@;
        match find_model(&kept, "gemma3-local") {
            Some(j) => {
                let m = refresh_gemma3_model(&kept[j], env_base_url);
                kept.set(j, m);
            },
            None => {
                let url = default_gemma3_base_url(env_base_url);
                kept.insert(0, local_gemma3(url.as_str()));
                assert(kept@.skip(1) =~= base);
            },
        }
        self.models = kept;
    }

    /// Stores the keys found in the environment, given in the order of
    /// `env_key_sources`, for the models that have none; a key that cannot be
    /// encrypted is left out.
    pub fn inject_api_keys(&mut self, key_values: &Vec<Option<String>>)
        ensures
            keys_injected_spec(old(self).models@, final(self).models@, key_values@.map_values(|o: Option<String>| match o { Some(v) => Some(v@), None => None })),
            same_but_models(*final(self), *old(self)),
    {
        let ghost values = key_values@.map_values(|o: Option<String>| match o { Some(v) => Some(v@), None => None });
        let sources = env_key_sources();
        let mut i: usize = 0;
        while i < sources.len() && i < key_values.len()
            invariant
                i <= sources.len(),
                sources@.map_values(|p: (&str, &str)| (p.0@, p.1@)) == env_key_sources_spec(),
                values == key_values@.map_values(|o: Option<String>| match o { Some(v) => Some(v@), None => None }),
                same_but_models(*self, *old(self)),
                self.models@.len() == old(self).models@.len(),
                forall|j: int| 0 <= j < old(self).models@.len() ==> (#[trigger] self.models@[j]) == (ModelConfig { api_key: self.models@[j].api_key, ..old(self).models@[j] }),
                forall|j: int| 0 <= j < old(self).models@.len() && old(self).models@[j].api_key is Some ==> (#[trigger] self.models@[j]).api_key == old(self).models@[j].api_key,
                forall|j: int| 0 <= j < old(self).models@.len() && (#[trigger] self.models@[j]).api_key != old(self).models@[j].api_key ==>
                    exists|q: int| 0 <= q < i && q < values.len() && q < env_key_sources_spec().len()
                        && env_key_sources_spec()[q].0 == old(self).models@[j].id@
                        && first_model(old(self).models@, old(self).models@[j].id@, 0) == Some(j)
                        && nonempty_value(#[trigger] values[q])
                        && key_seals(self.models@[j].api_key, values[q]),
            decreases sources.len() - i,
        {
            let (model_id, _var) = sources[i];
            assert(env_key_sources_spec()[i as int].0 == model_id@);
            match &key_values[i] {
                Some(key) => {
                    if key.as_str().len() > 0 {
                        match find_model(&self.models, model_id) {
                            Some(j) => {
                                if self.models[j].api_key.is_none() {
                                    proof {
                                        assert(first_model(old(self).models@, model_id@, 0) == first_model(self.models@, model_id@, 0)) by {
                                            lemma_first_model_same_ids(old(self).models@, self.models@, model_id@, 0);
                                        }
                                    }
                                    let ghost before = self.models@;
                                    let _ = self.set_api_key(model_id, key.as_str());
                                    assert(values[i as int] == Some(key@));
                                    proof {
                                        assert forall|jj: int| 0 <= jj < old(self).models@.len() && (#[trigger] self.models@[jj]).api_key != old(self).models@[jj].api_key implies
                                            exists|q: int| 0 <= q < i + 1 && q < values.len() && q < env_key_sources_spec().len()
                                                && env_key_sources_spec()[q].0 == old(self).models@[jj].id@
                                                && first_model(old(self).models@, old(self).models@[jj].id@, 0) == Some(jj)
                                                && nonempty_value(#[trigger] values[q])
                                                && key_seals(self.models@[jj].api_key, values[q]) by {
                                            if jj == j as int {
                                                assert(nonempty_value(values[i as int]));
                                            } else {
                                                assert(self.models@[jj] == before[jj]);
                                            }
                                        }
                                    }
                                }
                            },
                            None => {},
                        }
                    }
                },
                None => {},
            }
            i += 1;
        }
    }

    /// Brings the models in line with the environment: the local model is
    /// refreshed with `KERNELIA_GEMMA3_BASE_URL`, then keys found in the
    /// environment are stored for the models that have none.
    pub fn inject_env_keys(&mut self, env_base_url: Option<&str>, key_values: &Vec<Option<String>>)
        ensures
            exists|mid: Seq<ModelConfig>|
                #[trigger] gemma3_refresh_spec(old(self).models@, mid, str_opt(env_base_url))
                && keys_injected_spec(mid, final(self).models@, key_values@.map_values(|o: Option<String>| match o { Some(v) => Some(v@), None => None })),
            same_but_models(*final(self), *old(self)),
    {
        self.refresh_local_gemma3(env_base_url);
        let ghost mid = self.models@;
        self.inject_api_keys(key_values);
        assert(gemma3_refresh_spec(old(self).models@, mid, str_opt(env_base_url)));
    }
}

/// Two model lists with the same identifiers, position by position, find
/// the same first model for any identifier.
proof fn lemma_first_model_same_ids(a: Seq<ModelConfig>, b: Seq<ModelConfig>, id: Seq<char>, i: int)
    requires
        a.len() == b.len(),
        forall|j: int| 0 <= j < a.len() ==> (#[trigger] b[j]).id == a[j].id,
    ensures
        first_model(a, id, i) == first_model(b, id, i),
    decreases a.len() - i,
{
    if 0 <= i < a.len() {
        assert(b[i].id == a[i].id);
        lemma_first_model_same_ids(a, b, id, i + 1);
    }
}


impl AppSettings {
    /// The settings of a first start: the local Gemma 3 selected, the
    /// retrieval switches read from their environment values, the standard
    /// models, accounts and quick checks, nobody signed in, and the critical
    /// password of technicians stored encrypted (left unset if encryption
    /// fails).
    pub fn initial(version: &str, rag_enabled_env: Option<&str>, rag_compare_env: Option<&str>, rag_debug_env: Option<&str>) -> (r: AppSettings)
        ensures
            r.version@ == version@,
            r.first_run,
            r.selected_model@ == "gemma3-local"@,
            r.rag_engine_enabled == env_flag_spec(str_opt(rag_enabled_env), true),
            r.rag_compare_mode == env_flag_spec(str_opt(rag_compare_env), false),
            r.rag_debug_panel == env_flag_spec(str_opt(rag_debug_env), false),
            r.rag_show_confidence_badge,
            r.models@.map_values(|m: ModelConfig| model_view(m)) == default_models_spec(),
            r.language@ == "es"@,
            r.theme@ == "dark"@,
            r.max_history_messages == 50,
            r.confirm_dangerous_actions,
            r.user_role == UserRole::Viewer,
            r.users@.len() == 3,
            signed_out(r.auth),
            r.megaboss_password_encrypted is None,
            r.megaboss_unlock_until_epoch is None,
            quick_check_views(r.quick_checks@) == default_quick_checks_spec(),
    {
        let tecnico = match Encryption::encrypt("KernelIA!CriticalProc2026") {
            Ok(c) => Some(c),
            Err(_) => None,
        };
        AppSettings {
            version: String::from_str(version),
            first_run: true,
            selected_model: String::from_str("gemma3-local"),
            rag_engine_enabled: default_rag_engine_enabled(rag_enabled_env),
            rag_compare_mode: default_rag_compare_mode(rag_compare_env),
            rag_debug_panel: default_rag_debug_panel(rag_debug_env),
            rag_show_confidence_badge: default_rag_show_confidence_badge(),
            models: AppSettings::default_models(),
            ollama: OllamaConfig::default(),
            language: String::from_str("es"),
            theme: String::from_str("dark"),
            max_history_messages: 50,
            confirm_dangerous_actions: true,
            user_role: UserRole::Viewer,
            users: AppSettings::default_users(),
            auth: AuthState::default(),
            tecnico_critical_password_encrypted: tecnico,
            megaboss_password_encrypted: None,
            megaboss_unlock_until_epoch: None,
            quick_checks: AppSettings::default_quick_checks(),
        }
    }
}

} // verus!
