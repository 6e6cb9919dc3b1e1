//! Records kept about checkpoints and policies.

use vstd::prelude::*;
use crate::clock::now_nanos;
use crate::models::{DecisionMode, RiskLevel};
use crate::text::{decimal, decimal_string, eq_ignore_ascii_case, eq_ignore_ascii_case_spec, str_eq};
use crate::tickets::{code_digits, digits_from_clock};

verus! {

/// A human-in-the-loop checkpoint that holds a risky tool call until someone
/// approves or rejects it.
#[derive(Debug, Clone)]
pub struct HitlCheckpoint {
    pub id: String,
    pub checkpoint_code: String,
    pub session_id: String,
    pub tool_name: String,
    pub args_json: String,
    pub risk_level: String,
    pub required_role: String,
    pub status: String,
    pub requested_at: String,
    pub resolved_at: Option<String>,
    pub resolved_by: Option<String>,
}

/// How a checkpoint was resolved.
#[derive(Debug, Clone)]
pub struct CheckpointResolutionResult {
    pub checkpoint_code: String,
    pub status: String,
    pub executed: bool,
    pub output: Option<String>,
    pub message: String,
}

/// The code of a checkpoint: `CHK-` and four digits drawn from the clock.
pub open spec fn checkpoint_code_spec(nanos: Option<i64>) -> Seq<char> {
    "CHK-"@ + decimal(code_digits(nanos, 54321))
}

/// The code of a checkpoint raised at the clock reading `nanos`.
pub fn checkpoint_code_from(nanos: Option<i64>) -> (r: String)
    ensures
        r@ == checkpoint_code_spec(nanos),
{
    let mut out = String::from_str("CHK-");
    let d = decimal_string(digits_from_clock(nanos, 54321));
    out.append(d.as_str());
    out
}

/// A fresh checkpoint code from the current instant.
pub fn rand_checkpoint_code() -> (r: String)
    ensures
        exists|nanos: Option<i64>| r@ == checkpoint_code_spec(nanos),
{
    checkpoint_code_from(now_nanos())
}

/// A new pending checkpoint, to be stored as given.
pub fn new_checkpoint(
    id: &str,
    checkpoint_code: &str,
    session_id: &str,
    tool_name: &str,
    args_json: &str,
    risk_level: &str,
    required_role: &str,
    requested_at: &str,
) -> (r: HitlCheckpoint)
    ensures
        r.id@ == id@,
        r.checkpoint_code@ == checkpoint_code@,
        r.session_id@ == session_id@,
        r.tool_name@ == tool_name@,
        r.args_json@ == args_json@,
        r.risk_level@ == risk_level@,
        r.required_role@ == required_role@,
        r.status@ == "pending"@,
        r.requested_at@ == requested_at@,
        r.resolved_at is None,
        r.resolved_by is None,
{
    HitlCheckpoint {
        id: String::from_str(id),
        checkpoint_code: String::from_str(checkpoint_code),
        session_id: String::from_str(session_id),
        tool_name: String::from_str(tool_name),
        args_json: String::from_str(args_json),
        risk_level: String::from_str(risk_level),
        required_role: String::from_str(required_role),
        status: String::from_str("pending"),
        requested_at: String::from_str(requested_at),
        resolved_at: None,
        resolved_by: None,
    }
}

/// How resolving a checkpoint ends: an unknown checkpoint and one already
/// resolved are errors; otherwise `approve` (in any case) approves it and
/// runs the held tool, anything else rejects it.
pub open spec fn resolution_spec(found: Option<HitlCheckpoint>, code: Seq<char>, action: Seq<char>, by: Seq<char>, r: Result<CheckpointResolutionResult, String>) -> bool {
    match found {
        None => r matches Err(e) && e@ == "Checkpoint #"@ + code + " no encontrado o no existe"@,
        Some(c) => if c.status@ != "pending"@ {
            r matches Err(e) && e@ == "El checkpoint #"@ + code + " ya fue resuelto previamente (estado: "@ + c.status@ + ")"@
        } else if eq_ignore_ascii_case_spec(action, "approve"@) {
            r matches Ok(o) && o.checkpoint_code@ == code && o.status@ == "approved"@ && o.executed
                && (o.output matches Some(out) && out@ == "Ejecutado con éxito bajo autorización de "@ + by)
                && o.message@ == "Estado reanudado exitosamente. La herramienta '"@ + c.tool_name@ + "' fue autorizada por "@ + by + "."@
        } else {
            r matches Ok(o) && o.checkpoint_code@ == code && o.status@ == "rejected"@ && !o.executed && o.output is None
                && o.message@ == "Operación #"@ + code + " rechazada por el operador "@ + by + ". El estado ha sido cancelado."@
        },
    }
}

/// Resolves a checkpoint found (or not) under `checkpoint_code`; on success
/// the caller stores the new status.
pub fn checkpoint_resolution(found: Option<&HitlCheckpoint>, checkpoint_code: &str, action: &str, resolved_by_user: &str) -> (r: Result<CheckpointResolutionResult, String>)
    ensures
        resolution_spec(match found { Some(c) => Some(*c), None => None }, checkpoint_code@, action@, resolved_by_user@, r),
{
    let c = match found {
        None => {
            let mut e = String::from_str("Checkpoint #");
            e.append(checkpoint_code);
            e.append(" no encontrado o no existe");
            return Err(e);
        },
        Some(c) => c,
    };
    if !str_eq(c.status.as_str(), "pending") {
        let mut e = String::from_str("El checkpoint #");
        e.append(checkpoint_code);
        e.append(" ya fue resuelto previamente (estado: ");
        e.append(c.status.as_str());
        e.append(")");
        return Err(e);
    }
    if eq_ignore_ascii_case(action, "approve") {
        let mut message = String::from_str("Estado reanudado exitosamente. La herramienta '");
        message.append(c.tool_name.as_str());
        message.append("' fue autorizada por ");
        message.append(resolved_by_user);
        message.append(".");
        let mut output = String::from_str("Ejecutado con éxito bajo autorización de ");
        output.append(resolved_by_user);
        Ok(CheckpointResolutionResult {
            checkpoint_code: String::from_str(checkpoint_code),
            status: String::from_str("approved"),
            executed: true,
            output: Some(output),
            message,
        })
    } else {
        let mut message = String::from_str("Operación #");
        message.append(checkpoint_code);
        message.append(" rechazada por el operador ");
        message.append(resolved_by_user);
        message.append(". El estado ha sido cancelado.");
        Ok(CheckpointResolutionResult {
            checkpoint_code: String::from_str(checkpoint_code),
            status: String::from_str("rejected"),
            executed: false,
            output: None,
            message,
        })
    }
}

/// A policy hint for a tool: its risk, the decision it calls for, and
/// whether a snapshot must be taken first.
#[derive(Debug, Clone)]
pub struct PolicyHint {
    pub tool_name: String,
    pub risk_level: RiskLevel,
    pub decision_mode: DecisionMode,
    pub requires_snapshot: bool,
}

/// The built-in policy hints: none; policies come from the store.
pub fn default_policy_hints() -> (r: Vec<PolicyHint>)
    ensures
        r@.len() == 0,
{
    Vec::new()
}

} // verus!
