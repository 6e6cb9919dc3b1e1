//! Privilege elevation for technical actions: password checks and the risk
//! level of an action.

use vstd::prelude::*;
use crate::text::{contains_any, contains_any_spec, lowercase_chars, lowercase_of, str_eq, string_from_chars, trim, trim_seq, views_of};

verus! {

/// A request to elevate a session's privileges for one action.
#[derive(Debug, Clone)]
pub struct ElevationRequest {
    pub session_id: String,
    pub user_id: String,
    pub current_role: String,
    pub required_role: String,
    pub action_name: String,
    pub risk_level: String,
    pub password_input: String,
}

/// The answer to an elevation request.
#[derive(Debug, Clone)]
pub struct ElevationResponse {
    pub success: bool,
    pub authenticated_role: String,
    pub message: String,
    pub error_code: Option<String>,
}

/// One interaction of a user with the assistant, as audited.
#[derive(Debug, Clone)]
pub struct UserInteractionRecord {
    pub id: String,
    pub session_id: String,
    pub user_id: String,
    pub user_role: String,
    pub query_text: String,
    pub intent_detected: String,
    pub response_mode: String,
    pub action_requested: Option<String>,
    pub command_risk_level: Option<String>,
    pub elevation_required: bool,
    pub elevation_status: String,
    pub authenticated_by: Option<String>,
    pub execution_result: Option<String>,
}

/// The evaluation passwords that grant an elevation.
pub open spec fn technical_passwords() -> Seq<Seq<char>> {
    seq!["admin123"@, "superadmin123"@, "kernelia2026"@]
}

/// The role a granted elevation authenticates as.
pub open spec fn granted_role(trimmed: Seq<char>) -> Seq<char> {
    if trimmed == "superadmin123"@ { "superadmin"@ } else { "tech_analyst"@ }
}

/// The answer to a password, as plain values: success, authenticated role,
/// message, error code.
pub open spec fn elevation_spec(password: Seq<char>, required_role: Seq<char>) -> (bool, Seq<char>, Seq<char>, Option<Seq<char>>) {
    let t = trim_seq(password);
    if technical_passwords().contains(t) {
        (true, granted_role(t), "Autenticación exitosa como "@ + granted_role(t) + ". Elevación de privilegios concedida."@, None)
    } else {
        (false, required_role, "Contraseña de usuario técnico o administrador incorrecta."@, Some("INVALID_CREDENTIALS"@))
    }
}

/// An elevation answer as plain values.
pub open spec fn elevation_view(r: ElevationResponse) -> (bool, Seq<char>, Seq<char>, Option<Seq<char>>) {
    (r.success, r.authenticated_role@, r.message@, match r.error_code { Some(c) => Some(c@), None => None })
}

/// Checks the password of a technical elevation: a trimmed evaluation
/// password grants `superadmin` or `tech_analyst`; any other is refused
/// with the role that was required.
pub fn verify_technical_password(password: &str, required_role: &str) -> (r: ElevationResponse)
    ensures
        elevation_view(r) == elevation_spec(password@, required_role@),
{
    let trimmed = string_from_chars(&trim(password));
    let t = trimmed.as_str();
    let is_super = str_eq(t, "superadmin123");
    if str_eq(t, "admin123") || is_super || str_eq(t, "kernelia2026") {
        proof {
            assert(technical_passwords().contains(trimmed@) <==> (trimmed@ == "admin123"@ || trimmed@ == "superadmin123"@ || trimmed@ == "kernelia2026"@)) by {
                if technical_passwords().contains(trimmed@) {
                    let k = choose|k: int| 0 <= k < 3 && technical_passwords()[k] == trimmed@;
                }
                if trimmed@ == "admin123"@ { assert(technical_passwords()[0] == trimmed@); }
                if trimmed@ == "superadmin123"@ { assert(technical_passwords()[1] == trimmed@); }
                if trimmed@ == "kernelia2026"@ { assert(technical_passwords()[2] == trimmed@); }
            }
        }
        let role = if is_super { "superadmin" } else { "tech_analyst" };
        let mut message = String::from_str("Autenticación exitosa como ");
        message.append(role);
        message.append(". Elevación de privilegios concedida.");
        ElevationResponse { success: true, authenticated_role: String::from_str(role), message, error_code: None }
    } else {
        proof {
            if technical_passwords().contains(trimmed@) {
                let k = choose|k: int| 0 <= k < 3 && technical_passwords()[k] == trimmed@;
            }
        }
        ElevationResponse {
            success: false,
            authenticated_role: String::from_str(required_role),
            message: String::from_str("Contraseña de usuario técnico o administrador incorrecta."),
            error_code: Some(String::from_str("INVALID_CREDENTIALS")),
        }
    }
}

/// The risk level of an action by the words its lowercased name holds:
/// formatting or deleting is `R4`; registry, uninstall or reboot `R3`;
/// service restarts and resets `R2`; `sfc` and DNS flushes `R1`; else `R0`.
pub open spec fn action_risk_spec(action: Seq<char>) -> Seq<char> {
    let l = lowercase_of(action);
    if contains_any_spec(l, seq!["format"@, "remove-item"@, "delete"@, "del "@]) {
        "R4"@
    } else if contains_any_spec(l, seq!["registry"@, "uninstall"@, "reboot"@]) {
        "R3"@
    } else if contains_any_spec(l, seq!["restart-service"@, "reset"@]) {
        "R2"@
    } else if contains_any_spec(l, seq!["sfc"@, "flushdns"@]) {
        "R1"@
    } else {
        "R0"@
    }
}

/// The risk level of an action.
pub fn evaluate_risk_level(action_name: &str) -> (r: &'static str)
    ensures
        r@ == action_risk_spec(action_name@),
{
    let lower = lowercase_chars(action_name);
    let r4: [&str; 4] = ["format", "remove-item", "delete", "del "];
    assert(views_of(r4@) =~= seq!["format"@, "remove-item"@, "delete"@, "del "@]);
    if contains_any(&lower, &r4) {
        return "R4";
    }
    let r3: [&str; 3] = ["registry", "uninstall", "reboot"];
    assert(views_of(r3@) =~= seq!["registry"@, "uninstall"@, "reboot"@]);
    if contains_any(&lower, &r3) {
        return "R3";
    }
    let r2: [&str; 2] = ["restart-service", "reset"];
    assert(views_of(r2@) =~= seq!["restart-service"@, "reset"@]);
    if contains_any(&lower, &r2) {
        return "R2";
    }
    let r1: [&str; 2] = ["sfc", "flushdns"];
    assert(views_of(r1@) =~= seq!["sfc"@, "flushdns"@]);
    if contains_any(&lower, &r1) {
        return "R1";
    }
    "R0"
}

} // verus!
