//! Validation of the values that user commands hand over.

use vstd::prelude::*;
use crate::text::{chars_of, decimal, decimal_string, lowercase_of, string_from_chars, to_lowercase, trim, trim_seq, str_eq};

verus! {

pub const MAX_MESSAGE_LEN: usize = 12000;
pub const MAX_USERNAME_LEN: usize = 64;
pub const MAX_PASSWORD_LEN: usize = 256;
pub const MAX_MODEL_ID_LEN: usize = 120;
pub const MAX_TOOL_NAME_LEN: usize = 120;
pub const MAX_SERVICE_NAME_LEN: usize = 120;
pub const MAX_QUICK_CHECK_ID_LEN: usize = 120;

/// A unit result with its error as plain text.
pub open spec fn unit_view(r: Result<(), String>) -> Result<(), Seq<char>> {
    match r {
        Ok(_) => Ok(()),
        Err(e) => Err(e@),
    }
}

/// The error for a blank field.
pub open spec fn empty_error(field: Seq<char>) -> Seq<char> {
    "API_VALIDATION: '"@ + field + "' no puede estar vacio"@
}

/// The error for a field longer than `max` characters.
pub open spec fn too_long_error(field: Seq<char>, max: nat) -> Seq<char> {
    "API_VALIDATION: '"@ + field + "' excede longitud maxima ("@ + decimal(max) + ")"@
}

/// A value is accepted when it is not blank and has at most `max` characters;
/// blankness is reported first.
pub open spec fn field_check(field: Seq<char>, value: Seq<char>, max: nat) -> Result<(), Seq<char>> {
    if trim_seq(value).len() == 0 {
        Err(empty_error(field))
    } else if value.len() > max {
        Err(too_long_error(field, max))
    } else {
        Ok(())
    }
}

/// Rejects a value that is empty or only whitespace.
pub fn validate_non_empty(field: &str, value: &str) -> (r: Result<(), String>)
    ensures
        unit_view(r) == (if trim_seq(value@).len() == 0 { Err(empty_error(field@)) } else { Ok(()) }),
{
    if trim(value).len() == 0 {
        let mut e = String::from_str("API_VALIDATION: '");
        e.append(field);
        e.append("' no puede estar vacio");
        return Err(e);
    }
    Ok(())
}

/// Rejects a value of more than `max` characters.
pub fn validate_max_len(field: &str, value: &str, max: usize) -> (r: Result<(), String>)
    ensures
        unit_view(r) == (if value@.len() > max { Err(too_long_error(field@, max as nat)) } else { Ok(()) }),
{
    if chars_of(value).len() > max {
        let mut e = String::from_str("API_VALIDATION: '");
        e.append(field);
        e.append("' excede longitud maxima (");
        let n = decimal_string(max);
        e.append(n.as_str());
        e.append(")");
        return Err(e);
    }
    Ok(())
}

fn validate_field(field: &str, value: &str, max: usize) -> (r: Result<(), String>)
    ensures
        unit_view(r) == field_check(field@, value@, max as nat),
{
    match validate_non_empty(field, value) {
        Err(e) => Err(e),
        Ok(_) => validate_max_len(field, value, max),
    }
}

/// Validates a chat message.
pub fn validate_message(message: &str) -> (r: Result<(), String>)
    ensures
        unit_view(r) == field_check("message"@, message@, MAX_MESSAGE_LEN as nat),
{
    validate_field("message", message, MAX_MESSAGE_LEN)
}

/// Validates a user name.
pub fn validate_username(username: &str) -> (r: Result<(), String>)
    ensures
        unit_view(r) == field_check("username"@, username@, MAX_USERNAME_LEN as nat),
{
    validate_field("username", username, MAX_USERNAME_LEN)
}

/// Validates a password, reporting errors under `field_name`.
pub fn validate_password(password: &str, field_name: &str) -> (r: Result<(), String>)
    ensures
        unit_view(r) == field_check(field_name@, password@, MAX_PASSWORD_LEN as nat),
{
    validate_field(field_name, password, MAX_PASSWORD_LEN)
}

/// Validates a model identifier.
pub fn validate_model_id(model_id: &str) -> (r: Result<(), String>)
    ensures
        unit_view(r) == field_check("model_id"@, model_id@, MAX_MODEL_ID_LEN as nat),
{
    validate_field("model_id", model_id, MAX_MODEL_ID_LEN)
}

/// Validates a tool name.
pub fn validate_tool_name(tool_name: &str) -> (r: Result<(), String>)
    ensures
        unit_view(r) == field_check("name"@, tool_name@, MAX_TOOL_NAME_LEN as nat),
{
    validate_field("name", tool_name, MAX_TOOL_NAME_LEN)
}

/// Validates a service name.
pub fn validate_service_name(service_name: &str) -> (r: Result<(), String>)
    ensures
        unit_view(r) == field_check("service_name"@, service_name@, MAX_SERVICE_NAME_LEN as nat),
{
    validate_field("service_name", service_name, MAX_SERVICE_NAME_LEN)
}

/// Validates a quick-check identifier.
pub fn validate_quick_check_id(quick_check_id: &str) -> (r: Result<(), String>)
    ensures
        unit_view(r) == field_check("quick_check_id"@, quick_check_id@, MAX_QUICK_CHECK_ID_LEN as nat),
{
    validate_field("quick_check_id", quick_check_id, MAX_QUICK_CHECK_ID_LEN)
}

/// The sort key a process listing asks for: `memory` when none is given,
/// trimmed and lowercased; it must be `cpu`, `memory` or `name`.
pub open spec fn sort_by_spec(sort_by: Option<Seq<char>>) -> Result<Seq<char>, Seq<char>> {
    let raw = match sort_by { Some(s) => s, None => "memory"@ };
    let normalized = lowercase_of(trim_seq(raw));
    if normalized == "cpu"@ || normalized == "memory"@ || normalized == "name"@ {
        Ok(normalized)
    } else {
        Err("API_VALIDATION: 'sort_by' debe ser uno de: cpu, memory, name"@)
    }
}

/// Normalizes and checks the sort key of a process listing.
pub fn normalize_sort_by(sort_by: Option<String>) -> (r: Result<String, String>)
    ensures
        match r {
            Ok(s) => sort_by_spec(match sort_by { Some(s) => Some(s@), None => None }) == Ok::<Seq<char>, Seq<char>>(s@),
            Err(e) => sort_by_spec(match sort_by { Some(s) => Some(s@), None => None }) == Err::<Seq<char>, Seq<char>>(e@),
        },
{
    let raw = match sort_by {
        Some(s) => s,
        None => String::from_str("memory"),
    };
    let trimmed = string_from_chars(&trim(raw.as_str()));
    let normalized = to_lowercase(trimmed.as_str());
    if str_eq(normalized.as_str(), "cpu") || str_eq(normalized.as_str(), "memory") || str_eq(normalized.as_str(), "name") {
        Ok(normalized)
    } else {
        Err(String::from_str("API_VALIDATION: 'sort_by' debe ser uno de: cpu, memory, name"))
    }
}

/// A listing limit: the given one or the default, clamped to `1..=max_value`.
pub fn normalize_limit(limit: Option<usize>, default_value: usize, max_value: usize) -> (r: usize)
    requires
        max_value >= 1,
    ensures
        r == ({
            let v = match limit { Some(l) => l, None => default_value };
            if v < 1 { 1 } else if v > max_value { max_value } else { v }
        }),
{
    let v = match limit {
        Some(l) => l,
        None => default_value,
    };
    if v < 1 {
        1
    } else if v > max_value {
        max_value
    } else {
        v
    }
}

} // verus!
