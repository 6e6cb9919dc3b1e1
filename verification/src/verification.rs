//! Checking after the fact that a tool did what it was meant to.

use vstd::prelude::*;
use crate::memory::{bool_text, bool_text_str};
use crate::text::{
    byte_boundary, chars_of, collapse_ws, compact_spec, compact_text, contains, contains_any, contains_any_spec,
    lowercase_chars, lowercase_of, seq_contains, signed_decimal, signed_decimal_string, str_eq, trim, trim_seq,
    utf8_len, views_of,
};

verus! {

/// What running a tool gave.
#[derive(Debug, Clone)]
pub struct ToolResult {
    pub tool_name: String,
    pub success: bool,
    pub output: String,
    pub error: Option<String>,
}

/// The verdict on a tool run: whether it was verified or skipped, with the
/// verification tool, its arguments as JSON text, its result and a reason.
#[derive(Debug, Clone)]
pub struct VerificationOutcome {
    pub verified: bool,
    pub skipped: bool,
    pub verify_tool_name: Option<String>,
    pub verify_args: Option<String>,
    pub verification_result: String,
    pub reason_code: String,
}

/// Whether a DNS answer, lowercased, reports a failure.
pub open spec fn error_markers_spec(text: Seq<char>) -> bool {
    contains_any_spec(lowercase_of(text), seq!["dns request timed out"@, "non-existent domain"@, "can't find"@, "server failed"@])
}

/// Whether a DNS answer reports a failure.
pub fn contains_error_markers(text: &str) -> (r: bool)
    ensures
        r == error_markers_spec(text@),
{
    let lowered = lowercase_chars(text);
    let markers: [&str; 4] = ["dns request timed out", "non-existent domain", "can't find", "server failed"];
    assert(views_of(markers@) =~= seq!["dns request timed out"@, "non-existent domain"@, "can't find"@, "server failed"@]);
    contains_any(&lowered, &markers)
}

/// Whether the verification run meets the expected condition.
pub open spec fn condition_spec(expected: Seq<char>, v: ToolResult) -> bool {
    if expected == "dns_resolution_available"@ {
        v.success && !error_markers_spec(v.output@) && trim_seq(v.output@).len() > 0
    } else if expected == "service_running"@ {
        v.success && seq_contains(lowercase_of(v.output@), "running"@)
    } else if expected == "process_not_found"@ {
        !v.success || seq_contains(lowercase_of(match v.error { Some(e) => e@, None => Seq::empty() }), "no encontrado"@)
            || seq_contains(lowercase_of(v.output@), "not found"@)
    } else if expected == "scan_registered"@ {
        v.success && seq_contains(lowercase_of(v.output@), "enabled"@)
    } else {
        v.success
    }
}

/// Whether the run of the verification tool meets the rule's expected
/// condition; the executed tool and its arguments do not matter.
pub fn evaluate_expected_condition(
    expected_condition: &str,
    tool_name: &str,
    executed_args: &str,
    tool_result: &ToolResult,
    verification_tool_result: &ToolResult,
) -> (r: bool)
    ensures
        r == condition_spec(expected_condition@, *verification_tool_result),
        expected_condition@ == "dns_resolution_available"@ && (seq_contains(lowercase_of(verification_tool_result.output@), "dns request timed out"@) || seq_contains(lowercase_of(verification_tool_result.output@), "non-existent domain"@) || seq_contains(lowercase_of(verification_tool_result.output@), "can't find"@) || seq_contains(lowercase_of(verification_tool_result.output@), "server failed"@)) ==> !r,
        !verification_tool_result.success && expected_condition@ != "process_not_found"@ ==> !r,
{
    proof {
        lemma_conditions(expected_condition@, *verification_tool_result);
    }
    let v = verification_tool_result;
    if str_eq(expected_condition, "dns_resolution_available") {
        v.success && !contains_error_markers(v.output.as_str()) && trim(v.output.as_str()).len() > 0
    } else if str_eq(expected_condition, "service_running") {
        v.success && contains(&lowercase_chars(v.output.as_str()), "running")
    } else if str_eq(expected_condition, "process_not_found") {
        let err = match &v.error {
            Some(e) => lowercase_chars(e.as_str()),
            None => lowercase_chars(""),
        };
        proof {
            reveal_strlit("");
            assert(""@ =~= Seq::<char>::empty());
        }
        !v.success || contains(&err, "no encontrado") || contains(&lowercase_chars(v.output.as_str()), "not found")
    } else if str_eq(expected_condition, "scan_registered") {
        v.success && contains(&lowercase_chars(v.output.as_str()), "enabled")
    } else {
        v.success
    }
}

/// Output shortened for the verification log: words joined by single
/// spaces, cut to 240 bytes with `...`.
pub fn trim_for_log(text: &str) -> (r: String)
    requires
        utf8_len(collapse_ws(text@)) > 240 ==> byte_boundary(collapse_ws(text@), 240),
    ensures
        r@ == compact_spec(text@, 240),
{
    compact_text(text, 240)
}

/// The message that reports a verdict to the model.
pub open spec fn verification_message_spec(tool: Seq<char>, o: VerificationOutcome) -> Seq<char> {
    if o.skipped {
        "[POST_VERIFY]\ntool="@ + tool + "\nstatus=skipped\nreason="@ + o.reason_code@ + "\ndetails="@ + o.verification_result@
    } else {
        "[POST_VERIFY]\ntool="@ + tool + "\nstatus="@ + (if o.verified { "verified"@ } else { "failed"@ })
            + "\nreason="@ + o.reason_code@ + "\nverify_tool="@
            + (match o.verify_tool_name { Some(n) => n@, None => "none"@ }) + "\ndetails="@ + o.verification_result@
    }
}

/// Reports a verdict to the model.
pub fn format_verification_message(tool_name: &str, outcome: &VerificationOutcome) -> (r: String)
    ensures
        r@ == verification_message_spec(tool_name@, *outcome),
{
    let mut out = String::from_str("[POST_VERIFY]\ntool=");
    out.append(tool_name);
    if outcome.skipped {
        out.append("\nstatus=skipped\nreason=");
        out.append(outcome.reason_code.as_str());
        out.append("\ndetails=");
        out.append(outcome.verification_result.as_str());
        return out;
    }
    out.append("\nstatus=");
    out.append(if outcome.verified { "verified" } else { "failed" });
    out.append("\nreason=");
    out.append(outcome.reason_code.as_str());
    out.append("\nverify_tool=");
    match &outcome.verify_tool_name {
        Some(n) => out.append(n.as_str()),
        None => out.append("none"),
    }
    out.append("\ndetails=");
    out.append(outcome.verification_result.as_str());
    out
}

/// A JSON argument value of a tool call: text, an integer that fits in
/// `i64`, a list, an object of named values in their order, or any other
/// value kept as its JSON text.
#[derive(Debug)]
pub enum ArgValue {
    Text(String),
    Integer(i64),
    List(Vec<ArgValue>),
    Object(Vec<(String, ArgValue)>),
    Other(String),
}

/// The value named `key` in an object's entries, the first such entry.
pub open spec fn entry_value(es: Seq<(String, ArgValue)>, key: Seq<char>, i: int) -> Option<ArgValue>
    decreases es.len() - i,
{
    if i < 0 || i >= es.len() {
        None
    } else if es[i].0@ == key {
        Some(es[i].1)
    } else {
        entry_value(es, key, i + 1)
    }
}

/// The value named `key` when `args` is an object.
pub open spec fn arg_get(args: ArgValue, key: Seq<char>) -> Option<ArgValue> {
    match args {
        ArgValue::Object(es) => entry_value(es@, key, 0),
        _ => None,
    }
}

/// What a placeholder of a verification rule stands for: `<service_name>`
/// is the `name` argument when it is text, else `Spooler`; `<pid>` is the
/// `pid` argument, an integer in decimal or a text as it is, else empty;
/// any other text stays.
pub open spec fn placeholder_spec(text: Seq<char>, args: ArgValue) -> Seq<char> {
    if text == "<service_name>"@ {
        match arg_get(args, "name"@) {
            Some(ArgValue::Text(n)) => n@,
            _ => "Spooler"@,
        }
    } else if text == "<pid>"@ {
        match arg_get(args, "pid"@) {
            Some(ArgValue::Integer(v)) => signed_decimal(v as int),
            Some(ArgValue::Text(t)) => t@,
            _ => Seq::empty(),
        }
    } else {
        text
    }
}

fn find_entry(es: &Vec<(String, ArgValue)>, key: &str) -> (r: Option<usize>)
    ensures
        match r {
            Some(j) => j < es.len() && entry_value(es@, key@, 0) == Some(es@[j as int].1),
            None => entry_value(es@, key@, 0) is None,
        },
{
    let mut i: usize = 0;
    while i < es.len()
        invariant
            i <= es.len(),
            entry_value(es@, key@, 0) == entry_value(es@, key@, i as int),
        decreases es.len() - i,
    {
        if str_eq(es[i].0.as_str(), key) {
            return Some(i);
        }
        i += 1;
    }
    None
}

/// Resolves one placeholder of a verification rule against the arguments
/// the tool was run with.
pub fn resolve_placeholder(text: &str, args: &ArgValue) -> (r: String)
    ensures
        r@ == placeholder_spec(text@, *args),
{
    if str_eq(text, "<service_name>") {
        if let ArgValue::Object(es) = args {
            if let Some(j) = find_entry(es, "name") {
                if let ArgValue::Text(n) = &es[j].1 {
                    return n.clone();
                }
            }
        }
        return String::from_str("Spooler");
    }
    if str_eq(text, "<pid>") {
        if let ArgValue::Object(es) = args {
            if let Some(j) = find_entry(es, "pid") {
                match &es[j].1 {
                    ArgValue::Integer(v) => return signed_decimal_string(*v),
                    ArgValue::Text(t) => return t.clone(),
                    _ => {},
                }
            }
        }
        let e = String::new();
        return e;
    }
    String::from_str(text)
}

/// `after` is `before` with every text placeholder resolved against
/// `args`, everything else kept in place.
pub open spec fn substituted(before: ArgValue, after: ArgValue, args: ArgValue) -> bool
    decreases before,
{
    match before {
        ArgValue::Text(t) => after matches ArgValue::Text(u) && u@ == placeholder_spec(t@, args),
        ArgValue::Integer(v) => after == ArgValue::Integer(v),
        ArgValue::Other(t) => after matches ArgValue::Other(u) && u@ == t@,
        ArgValue::List(xs) => after matches ArgValue::List(ys) && ys.len() == xs.len()
            && forall|i: int| 0 <= i < xs.len() ==> substituted(#[trigger] xs@[i], ys@[i], args),
        ArgValue::Object(es) => after matches ArgValue::Object(fs) && fs.len() == es.len()
            && forall|i: int| 0 <= i < es.len() ==> fs@[i].0@ == es@[i].0@
                && substituted(#[trigger] es@[i].1, fs@[i].1, args),
    }
}

/// Resolves every placeholder in a rule's argument template.
#[verifier::loop_isolation(false)]
pub fn substitute_placeholders(value: &ArgValue, args: &ArgValue) -> (r: ArgValue)
    ensures
        substituted(*value, r, *args),
    decreases value,
{
    match value {
        ArgValue::Text(t) => ArgValue::Text(resolve_placeholder(t.as_str(), args)),
        ArgValue::Integer(v) => ArgValue::Integer(*v),
        ArgValue::Other(t) => ArgValue::Other(t.clone()),
        ArgValue::List(xs) => {
            let mut ys: Vec<ArgValue> = Vec::new();
            let mut i: usize = 0;
            while i < xs.len()
                invariant
                    i <= xs.len(),
                    ys.len() == i,
                    forall|k: int| 0 <= k < i ==> substituted(#[trigger] xs@[k], ys@[k], *args),
                decreases xs.len() - i,
            {
                let y = substitute_placeholders(&xs[i], args);
                ys.push(y);
                i += 1;
            }
            ArgValue::List(ys)
        },
        ArgValue::Object(es) => {
            let mut fs: Vec<(String, ArgValue)> = Vec::new();
            let mut i: usize = 0;
            while i < es.len()
                invariant
                    i <= es.len(),
                    fs.len() == i,
                    forall|k: int| 0 <= k < i ==> (#[trigger] fs@[k]).0@ == es@[k].0@,
                    forall|k: int| 0 <= k < i ==> substituted(#[trigger] es@[k].1, fs@[k].1, *args),
                decreases es.len() - i,
            {
                let y = substitute_placeholders(&es[i].1, args);
                fs.push((es[i].0.clone(), y));
                i += 1;
            }
            ArgValue::Object(fs)
        },
    }
}

/// The arguments for the verification tool: the rule's template with its
/// placeholders resolved, or an empty object where the template was not
/// JSON.
pub fn resolve_verify_args(template: Option<ArgValue>, args: &ArgValue) -> (r: ArgValue)
    ensures
        match template {
            Some(t) => substituted(t, r, *args),
            None => r matches ArgValue::Object(fs) && fs.len() == 0,
        },
{
    match template {
        Some(t) => substitute_placeholders(&t, args),
        None => ArgValue::Object(Vec::new()),
    }
}

/// A postcondition registered for a tool: which tool checks it, with which
/// argument template (JSON text) and which expected condition.
#[derive(Debug, Clone)]
pub struct VerificationRule {
    pub tool_name: String,
    pub verify_tool_name: String,
    pub verify_args_json: String,
    pub expected_condition: String,
}

/// The verdict where no rule is registered for the tool.
pub fn rule_missing_outcome() -> (r: VerificationOutcome)
    ensures
        !r.verified,
        r.skipped,
        r.verify_tool_name is None,
        r.verify_args is None,
        r.verification_result@ == "No hay regla de verificacion registrada."@,
        r.reason_code@ == "VERIFY_RULE_MISSING"@,
{
    VerificationOutcome {
        verified: false,
        skipped: true,
        verify_tool_name: None,
        verify_args: None,
        verification_result: String::from_str("No hay regla de verificacion registrada."),
        reason_code: String::from_str("VERIFY_RULE_MISSING"),
    }
}

/// Whether the verification may run: where the verification tool is
/// reserved to the owner and the owner mode is locked, the verdict is a
/// skip; else there is none yet.
pub fn verification_gate(rule: &VerificationRule, verify_args: &str, owner_only: bool, unlocked: bool) -> (r: Option<VerificationOutcome>)
    ensures
        (owner_only && !unlocked) == (r is Some),
        r matches Some(o) ==> {
            &&& !o.verified
            &&& o.skipped
            &&& o.verify_tool_name == Some(rule.verify_tool_name)
            &&& o.verify_args matches Some(a) && a@ == verify_args@
            &&& o.verification_result@ == "Verificacion omitida: el verificador requiere privilegio MegaBoss."@
            &&& o.reason_code@ == "VERIFY_PRIVILEGE_BLOCKED"@
        },
{
    if owner_only && !unlocked {
        Some(VerificationOutcome {
            verified: false,
            skipped: true,
            verify_tool_name: Some(rule.verify_tool_name.clone()),
            verify_args: Some(String::from_str(verify_args)),
            verification_result: String::from_str("Verificacion omitida: el verificador requiere privilegio MegaBoss."),
            reason_code: String::from_str("VERIFY_PRIVILEGE_BLOCKED"),
        })
    } else {
        None
    }
}

/// Whether a verification tool's output can be cut for the log.
pub open spec fn loggable(output: Seq<char>) -> bool {
    utf8_len(collapse_ws(output)) > 240 ==> byte_boundary(collapse_ws(output), 240)
}

/// Whether a verification tool's output can be cut for the log.
pub fn loggable_text(output: &str) -> (r: bool)
    ensures
        r == loggable(output@),
{
    let single = crate::text::collapse_whitespace(&chars_of(output));
    if crate::text::utf8_len_below(&single, 241) {
        true
    } else {
        crate::text::is_byte_boundary(&single, 240)
    }
}

/// The line that records a verification run.
pub open spec fn verification_result_spec(rule: VerificationRule, verify_args: Seq<char>, v: ToolResult, verified: bool) -> Seq<char> {
    "tool="@ + rule.tool_name@ + " verify_tool="@ + rule.verify_tool_name@ + " expected_condition="@
        + rule.expected_condition@ + " verified="@ + bool_text(verified) + " verify_args="@ + verify_args
        + " result_success="@ + bool_text(v.success) + " result_output="@ + compact_spec(v.output@, 240)
}

/// Records a verification run in one line.
pub fn format_verification_result(rule: &VerificationRule, verify_args: &str, v: &ToolResult, verified: bool) -> (r: String)
    requires
        loggable(v.output@),
    ensures
        r@ == verification_result_spec(*rule, verify_args@, *v, verified),
{
    let mut out = String::from_str("tool=");
    out.append(rule.tool_name.as_str());
    out.append(" verify_tool=");
    out.append(rule.verify_tool_name.as_str());
    out.append(" expected_condition=");
    out.append(rule.expected_condition.as_str());
    out.append(" verified=");
    out.append(bool_text_str(verified));
    out.append(" verify_args=");
    out.append(verify_args);
    out.append(" result_success=");
    out.append(bool_text_str(v.success));
    out.append(" result_output=");
    let tail = trim_for_log(v.output.as_str());
    out.append(tail.as_str());
    out
}

/// The verdict once the verification tool has run: verified when its
/// result meets the rule's condition.
pub fn finish_verification(rule: &VerificationRule, tool_name: &str, verify_args: &str, v: &ToolResult) -> (r: VerificationOutcome)
    requires
        loggable(v.output@),
    ensures
        r.verified == condition_spec(rule.expected_condition@, *v),
        !r.skipped,
        r.verify_tool_name == Some(rule.verify_tool_name),
        r.verify_args matches Some(a) && a@ == verify_args@,
        r.verification_result@ == verification_result_spec(*rule, verify_args@, *v, r.verified),
        r.reason_code@ == (if r.verified { "VERIFY_OK"@ } else { "VERIFY_FAILED"@ }),
        rule.expected_condition@ == "dns_resolution_available"@ && (seq_contains(lowercase_of(v.output@), "dns request timed out"@) || seq_contains(lowercase_of(v.output@), "non-existent domain"@) || seq_contains(lowercase_of(v.output@), "can't find"@) || seq_contains(lowercase_of(v.output@), "server failed"@)) ==> !r.verified,
        !v.success && rule.expected_condition@ != "process_not_found"@ ==> !r.verified,
{
    proof {
        lemma_conditions(rule.expected_condition@, *v);
    }
    let verified = evaluate_expected_condition(rule.expected_condition.as_str(), tool_name, verify_args, v, v);
    let result = format_verification_result(rule, verify_args, v, verified);
    VerificationOutcome {
        verified,
        skipped: false,
        verify_tool_name: Some(rule.verify_tool_name.clone()),
        verify_args: Some(String::from_str(verify_args)),
        verification_result: result,
        reason_code: if verified { String::from_str("VERIFY_OK") } else { String::from_str("VERIFY_FAILED") },
    }
}

/// The text stored with a verification in the trace.
pub open spec fn verification_trace_spec(rule: VerificationRule, verify_args: Seq<char>, v: ToolResult) -> Seq<char> {
    "expected="@ + rule.expected_condition@ + " verify_args="@ + verify_args + " result_success="@
        + bool_text(v.success) + " verifier_output="@ + compact_spec(v.output@, 240)
}

/// The text stored with a verification in the trace.
pub fn verification_trace_text(rule: &VerificationRule, verify_args: &str, v: &ToolResult) -> (r: String)
    requires
        loggable(v.output@),
    ensures
        r@ == verification_trace_spec(*rule, verify_args@, *v),
{
    let mut out = String::from_str("expected=");
    out.append(rule.expected_condition.as_str());
    out.append(" verify_args=");
    out.append(verify_args);
    out.append(" result_success=");
    out.append(bool_text_str(v.success));
    out.append(" verifier_output=");
    let tail = trim_for_log(v.output.as_str());
    out.append(tail.as_str());
    out
}


// ---------------------------------------------------------------------------
// Laws of the expected conditions
// ---------------------------------------------------------------------------

/// What each expected condition asks of the verification run:
/// - DNS resolution is never met by output that reports a timeout, a
///   non-existent domain, a name it can't find or a server failure, nor by
///   a failed or blank run;
/// - a running service, and a registered scan, need a successful run whose
///   output says `running`, resp. `enabled`;
/// - a process is not found whenever the run failed;
/// - any other condition is met exactly by a successful run.
pub proof fn lemma_conditions(expected: Seq<char>, v: ToolResult)
    ensures
        expected == "dns_resolution_available"@ && (seq_contains(lowercase_of(v.output@), "dns request timed out"@) || seq_contains(lowercase_of(v.output@), "non-existent domain"@) || seq_contains(lowercase_of(v.output@), "can't find"@) || seq_contains(lowercase_of(v.output@), "server failed"@)) ==> !condition_spec(expected, v),
        expected == "dns_resolution_available"@ && condition_spec(expected, v) ==> v.success && trim_seq(v.output@).len() > 0,
        expected == "service_running"@ ==> (condition_spec(expected, v) <==> v.success && seq_contains(lowercase_of(v.output@), "running"@)),
        expected == "scan_registered"@ ==> (condition_spec(expected, v) <==> v.success && seq_contains(lowercase_of(v.output@), "enabled"@)),
        expected == "process_not_found"@ && !v.success ==> condition_spec(expected, v),
        expected != "dns_resolution_available"@ && expected != "service_running"@ && expected != "process_not_found"@
            && expected != "scan_registered"@ ==> condition_spec(expected, v) == v.success,
{
    let ms = seq!["dns request timed out"@, "non-existent domain"@, "can't find"@, "server failed"@];
    reveal_strlit("dns_resolution_available");
    reveal_strlit("service_running");
    reveal_strlit("process_not_found");
    reveal_strlit("scan_registered");
    assert("service_running"@[1] != "scan_registered"@[1]);
    assert("process_not_found"@.len() != "service_running"@.len());
    assert("process_not_found"@.len() != "dns_resolution_available"@.len());
    assert("process_not_found"@.len() != "scan_registered"@.len());
    assert("dns_resolution_available"@.len() != "service_running"@.len());
    assert("dns_resolution_available"@.len() != "scan_registered"@.len());
    if seq_contains(lowercase_of(v.output@), "dns request timed out"@) {
        assert(ms[0] == "dns request timed out"@);
        assert(seq_contains(lowercase_of(v.output@), ms[0]));
    }
    if seq_contains(lowercase_of(v.output@), "non-existent domain"@) {
        assert(ms[1] == "non-existent domain"@);
        assert(seq_contains(lowercase_of(v.output@), ms[1]));
    }
    if seq_contains(lowercase_of(v.output@), "can't find"@) {
        assert(ms[2] == "can't find"@);
        assert(seq_contains(lowercase_of(v.output@), ms[2]));
    }
    if seq_contains(lowercase_of(v.output@), "server failed"@) {
        assert(ms[3] == "server failed"@);
        assert(seq_contains(lowercase_of(v.output@), ms[3]));
    }
}

} // verus!
