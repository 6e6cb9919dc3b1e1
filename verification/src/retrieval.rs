//! Codes and text normalization shared by the retrieval stores.

use vstd::prelude::*;
use crate::models::{DomainSpecialty, QueryCategory};
use crate::models::QueryAnalysis;
use vstd::string::StringSliceAdditionalSpecFns;
use crate::query_analyzer::{tokenize, words};
use crate::rules::rule_views;
use crate::text::{
    chars_of, collapse_whitespace, collapse_ws, join_seqs, join_strings, lowercase_chars, lowercase_of, matches_at_pub,
    member, owned, str_eq, string_from_chars, string_views, views_of,
};

verus! {

/// The size of the embedding vectors.
pub const EMBEDDING_DIM: usize = 64;

/// The code under which a specialty is stored.
pub open spec fn specialty_code_spec(s: DomainSpecialty) -> Seq<char> {
    match s {
        DomainSpecialty::System => "system"@,
        DomainSpecialty::Telemetry => "telemetry"@,
        DomainSpecialty::Network => "network"@,
        DomainSpecialty::Processes => "processes"@,
        DomainSpecialty::Services => "services"@,
        DomainSpecialty::Maintenance => "maintenance"@,
        DomainSpecialty::Security => "security"@,
        DomainSpecialty::Drivers => "drivers"@,
        DomainSpecialty::Filesystem => "filesystem"@,
        DomainSpecialty::Audit => "audit"@,
        DomainSpecialty::Performance => "performance"@,
        DomainSpecialty::Software => "software"@,
        DomainSpecialty::SensitiveOps => "sensitive_ops"@,
        DomainSpecialty::Megaboss => "megaboss"@,
        DomainSpecialty::Unknown => "unknown"@,
    }
}

/// The code under which a specialty is stored.
pub fn specialty_code(specialty: &DomainSpecialty) -> (r: &'static str)
    ensures
        r@ == specialty_code_spec(*specialty),
{
    match specialty {
        DomainSpecialty::System => "system",
        DomainSpecialty::Telemetry => "telemetry",
        DomainSpecialty::Network => "network",
        DomainSpecialty::Processes => "processes",
        DomainSpecialty::Services => "services",
        DomainSpecialty::Maintenance => "maintenance",
        DomainSpecialty::Security => "security",
        DomainSpecialty::Drivers => "drivers",
        DomainSpecialty::Filesystem => "filesystem",
        DomainSpecialty::Audit => "audit",
        DomainSpecialty::Performance => "performance",
        DomainSpecialty::Software => "software",
        DomainSpecialty::SensitiveOps => "sensitive_ops",
        DomainSpecialty::Megaboss => "megaboss",
        DomainSpecialty::Unknown => "unknown",
    }
}

/// The stored identifier of a specialty: `sp_` and its code.
pub fn specialty_id(specialty: &DomainSpecialty) -> (r: String)
    ensures
        r@ == "sp_"@ + specialty_code_spec(*specialty),
{
    let mut out = String::from_str("sp_");
    out.append(specialty_code(specialty));
    out
}

/// The size of the embedding vectors.
pub fn embedding_dim() -> (r: usize)
    ensures
        r == EMBEDDING_DIM,
{
    EMBEDDING_DIM
}

/// The code under which a query category is stored.
pub open spec fn query_category_code_spec(c: QueryCategory) -> Seq<char> {
    match c {
        QueryCategory::Specific => "specific"@,
        QueryCategory::Short => "short"@,
        QueryCategory::Ambiguous => "ambiguous"@,
        QueryCategory::SymptomBased => "symptom_based"@,
        QueryCategory::ActionRequest => "action_request"@,
        QueryCategory::UnsafeRequest => "unsafe_request"@,
        QueryCategory::OutOfDomain => "out_of_domain"@,
    }
}

/// The code under which a query category is stored.
pub fn query_category_code(category: &QueryCategory) -> (r: &'static str)
    ensures
        r@ == query_category_code_spec(*category),
{
    match category {
        QueryCategory::Specific => "specific",
        QueryCategory::Short => "short",
        QueryCategory::Ambiguous => "ambiguous",
        QueryCategory::SymptomBased => "symptom_based",
        QueryCategory::ActionRequest => "action_request",
        QueryCategory::UnsafeRequest => "unsafe_request",
        QueryCategory::OutOfDomain => "out_of_domain",
    }
}

/// How retrieval folds one lowercased character: ASCII letters, digits and
/// spaces kept, common accented vowels and `ñ` to their base letter, anything
/// else to a space.
pub open spec fn retrieval_fold(c: char) -> char {
    if ('a' <= c && c <= 'z') || ('0' <= c && c <= '9') || c == ' ' {
        c
    } else if c == 'á' || c == 'à' || c == 'ä' || c == 'â' {
        'a'
    } else if c == 'é' || c == 'è' || c == 'ë' || c == 'ê' {
        'e'
    } else if c == 'í' || c == 'ì' || c == 'ï' || c == 'î' {
        'i'
    } else if c == 'ó' || c == 'ò' || c == 'ö' || c == 'ô' {
        'o'
    } else if c == 'ú' || c == 'ù' || c == 'ü' || c == 'û' {
        'u'
    } else if c == 'ñ' {
        'n'
    } else {
        ' '
    }
}

fn retrieval_fold_char(c: char) -> (r: char)
    ensures
        r == retrieval_fold(c),
{
    if ('a' <= c && c <= 'z') || ('0' <= c && c <= '9') || c == ' ' {
        c
    } else if c == 'á' || c == 'à' || c == 'ä' || c == 'â' {
        'a'
    } else if c == 'é' || c == 'è' || c == 'ë' || c == 'ê' {
        'e'
    } else if c == 'í' || c == 'ì' || c == 'ï' || c == 'î' {
        'i'
    } else if c == 'ó' || c == 'ò' || c == 'ö' || c == 'ô' {
        'o'
    } else if c == 'ú' || c == 'ù' || c == 'ü' || c == 'û' {
        'u'
    } else if c == 'ñ' {
        'n'
    } else {
        ' '
    }
}

/// Text as the retrieval stores compare it: lowercased, folded, and with its
/// words joined by single spaces.
pub open spec fn retrieval_normalize_spec(s: Seq<char>) -> Seq<char> {
    collapse_ws(lowercase_of(s).map_values(|c: char| retrieval_fold(c)))
}

/// Normalizes text for retrieval.
pub fn normalize_text(text: &str) -> (res: String)
    ensures
        res@ == retrieval_normalize_spec(text@),
{
    let lowered = lowercase_chars(text);
    let mut mapped: Vec<char> = Vec::new();
    let mut i: usize = 0;
    while i < lowered.len()
        invariant
            i <= lowered.len(),
            mapped@ == lowered@.take(i as int).map_values(|c: char| retrieval_fold(c)),
        decreases lowered.len() - i,
    {
        mapped.push(retrieval_fold_char(lowered[i]));
        assert(lowered@.take(i as int + 1).map_values(|c: char| retrieval_fold(c))
            =~= lowered@.take(i as int).map_values(|c: char| retrieval_fold(c)).push(retrieval_fold(lowered@[i as int])));
        i += 1;
    }
    assert(lowered@.take(lowered.len() as int) =~= lowered@);
    let collapsed = collapse_whitespace(&mapped);
    string_from_chars(&collapsed)
}

/// The specialty stored under a code; `Unknown` for any other text.
pub open spec fn specialty_from_code_spec(code: Seq<char>) -> DomainSpecialty {
    if code == "system"@ {
        DomainSpecialty::System
    } else if code == "telemetry"@ {
        DomainSpecialty::Telemetry
    } else if code == "network"@ {
        DomainSpecialty::Network
    } else if code == "processes"@ {
        DomainSpecialty::Processes
    } else if code == "services"@ {
        DomainSpecialty::Services
    } else if code == "maintenance"@ {
        DomainSpecialty::Maintenance
    } else if code == "security"@ {
        DomainSpecialty::Security
    } else if code == "drivers"@ {
        DomainSpecialty::Drivers
    } else if code == "filesystem"@ {
        DomainSpecialty::Filesystem
    } else if code == "audit"@ {
        DomainSpecialty::Audit
    } else if code == "performance"@ {
        DomainSpecialty::Performance
    } else if code == "software"@ {
        DomainSpecialty::Software
    } else if code == "sensitive_ops"@ {
        DomainSpecialty::SensitiveOps
    } else if code == "megaboss"@ {
        DomainSpecialty::Megaboss
    } else {
        DomainSpecialty::Unknown
    }
}

/// The specialty stored under a code.
pub fn specialty_from_code(code: &str) -> (r: DomainSpecialty)
    ensures
        r == specialty_from_code_spec(code@),
{
    if str_eq(code, "system") {
        DomainSpecialty::System
    } else if str_eq(code, "telemetry") {
        DomainSpecialty::Telemetry
    } else if str_eq(code, "network") {
        DomainSpecialty::Network
    } else if str_eq(code, "processes") {
        DomainSpecialty::Processes
    } else if str_eq(code, "services") {
        DomainSpecialty::Services
    } else if str_eq(code, "maintenance") {
        DomainSpecialty::Maintenance
    } else if str_eq(code, "security") {
        DomainSpecialty::Security
    } else if str_eq(code, "drivers") {
        DomainSpecialty::Drivers
    } else if str_eq(code, "filesystem") {
        DomainSpecialty::Filesystem
    } else if str_eq(code, "audit") {
        DomainSpecialty::Audit
    } else if str_eq(code, "performance") {
        DomainSpecialty::Performance
    } else if str_eq(code, "software") {
        DomainSpecialty::Software
    } else if str_eq(code, "sensitive_ops") {
        DomainSpecialty::SensitiveOps
    } else if str_eq(code, "megaboss") {
        DomainSpecialty::Megaboss
    } else {
        DomainSpecialty::Unknown
    }
}

/// `s` with every leading repetition of `p` removed, as
/// `str::trim_start_matches` does with a text pattern.
pub open spec fn strip_leading(s: Seq<char>, p: Seq<char>) -> Seq<char>
    decreases s.len(),
{
    if p.len() > 0 && p.len() <= s.len() && s.subrange(0, p.len() as int) == p {
        strip_leading(s.skip(p.len() as int), p)
    } else {
        s
    }
}

fn strip_leading_chars(s: &Vec<char>, p: &Vec<char>) -> (res: Vec<char>)
    ensures
        res@ == strip_leading(s@, p@),
{
    let mut i: usize = 0;
    assert(s@.skip(0) =~= s@);
    while p.len() > 0 && p.len() <= s.len() - i && matches_at_pub(s, p, i)
        invariant
            i <= s.len(),
            strip_leading(s@, p@) == strip_leading(s@.skip(i as int), p@),
        decreases s.len() - i,
    {
        assert(s@.skip(i as int).subrange(0, p@.len() as int) =~= s@.subrange(i as int, i + p@.len()));
        assert(s@.skip(i as int).skip(p@.len() as int) =~= s@.skip(i + p@.len()));
        i += p.len();
    }
    proof {
        if p@.len() > 0 && p@.len() <= s@.len() - i {
            assert(s@.skip(i as int).subrange(0, p@.len() as int) =~= s@.subrange(i as int, i + p@.len()));
        }
    }
    let mut out: Vec<char> = Vec::new();
    let mut k: usize = i;
    while k < s.len()
        invariant
            i <= k <= s.len(),
            out@ =~= s@.subrange(i as int, k as int),
        decreases s.len() - k,
    {
        out.push(s[k]);
        k += 1;
    }
    assert(out@ =~= s@.skip(i as int));
    out
}

/// The specialty a stored identifier names: its code after any leading
/// `sp_` prefixes.
pub fn specialty_from_specialty_id(specialty_id: &str) -> (r: DomainSpecialty)
    ensures
        r == specialty_from_code_spec(strip_leading(specialty_id@, "sp_"@)),
{
    let s = chars_of(specialty_id);
    let p = chars_of("sp_");
    let code = strip_leading_chars(&s, &p);
    let text = string_from_chars(&code);
    specialty_from_code(text.as_str())
}

/// Reading a specialty back from its code, or from its stored identifier,
/// gives the specialty again.
pub proof fn lemma_specialty_code_round_trip(s: DomainSpecialty)
    ensures
        specialty_from_code_spec(specialty_code_spec(s)) == s,
        specialty_from_code_spec(strip_leading("sp_"@ + specialty_code_spec(s), "sp_"@)) == s,
{
    lemma_code_round_trip(s);
    reveal_strlit("sp_");
    let c = specialty_code_spec(s);
    let id = "sp_"@ + c;
    assert(id.subrange(0, 3) =~= "sp_"@);
    assert(id.skip(3) =~= c);
    lemma_code_not_prefixed(s);
}

proof fn lemma_code_not_prefixed(s: DomainSpecialty)
    ensures
        strip_leading(specialty_code_spec(s), "sp_"@) == specialty_code_spec(s),
{
    reveal_strlit("sp_");
    let c = specialty_code_spec(s);
    match s {
        DomainSpecialty::System => { reveal_strlit("system"); if c.len() >= 3 { assert(c.subrange(0, 3)[0] != "sp_"@[0] || c.subrange(0, 3)[1] != "sp_"@[1]); } }
        DomainSpecialty::Telemetry => { reveal_strlit("telemetry"); if c.len() >= 3 { assert(c.subrange(0, 3)[0] != "sp_"@[0] || c.subrange(0, 3)[1] != "sp_"@[1]); } }
        DomainSpecialty::Network => { reveal_strlit("network"); if c.len() >= 3 { assert(c.subrange(0, 3)[0] != "sp_"@[0] || c.subrange(0, 3)[1] != "sp_"@[1]); } }
        DomainSpecialty::Processes => { reveal_strlit("processes"); if c.len() >= 3 { assert(c.subrange(0, 3)[0] != "sp_"@[0] || c.subrange(0, 3)[1] != "sp_"@[1]); } }
        DomainSpecialty::Services => { reveal_strlit("services"); if c.len() >= 3 { assert(c.subrange(0, 3)[0] != "sp_"@[0] || c.subrange(0, 3)[1] != "sp_"@[1]); } }
        DomainSpecialty::Maintenance => { reveal_strlit("maintenance"); if c.len() >= 3 { assert(c.subrange(0, 3)[0] != "sp_"@[0] || c.subrange(0, 3)[1] != "sp_"@[1]); } }
        DomainSpecialty::Security => { reveal_strlit("security"); if c.len() >= 3 { assert(c.subrange(0, 3)[0] != "sp_"@[0] || c.subrange(0, 3)[1] != "sp_"@[1]); } }
        DomainSpecialty::Drivers => { reveal_strlit("drivers"); if c.len() >= 3 { assert(c.subrange(0, 3)[0] != "sp_"@[0] || c.subrange(0, 3)[1] != "sp_"@[1]); } }
        DomainSpecialty::Filesystem => { reveal_strlit("filesystem"); if c.len() >= 3 { assert(c.subrange(0, 3)[0] != "sp_"@[0] || c.subrange(0, 3)[1] != "sp_"@[1]); } }
        DomainSpecialty::Audit => { reveal_strlit("audit"); if c.len() >= 3 { assert(c.subrange(0, 3)[0] != "sp_"@[0] || c.subrange(0, 3)[1] != "sp_"@[1]); } }
        DomainSpecialty::Performance => { reveal_strlit("performance"); if c.len() >= 3 { assert(c.subrange(0, 3)[0] != "sp_"@[0] || c.subrange(0, 3)[1] != "sp_"@[1]); } }
        DomainSpecialty::Software => { reveal_strlit("software"); if c.len() >= 3 { assert(c.subrange(0, 3)[0] != "sp_"@[0] || c.subrange(0, 3)[1] != "sp_"@[1]); } }
        DomainSpecialty::SensitiveOps => { reveal_strlit("sensitive_ops"); if c.len() >= 3 { assert(c.subrange(0, 3)[0] != "sp_"@[0] || c.subrange(0, 3)[1] != "sp_"@[1]); } }
        DomainSpecialty::Megaboss => { reveal_strlit("megaboss"); if c.len() >= 3 { assert(c.subrange(0, 3)[0] != "sp_"@[0] || c.subrange(0, 3)[1] != "sp_"@[1]); } }
        DomainSpecialty::Unknown => { reveal_strlit("unknown"); if c.len() >= 3 { assert(c.subrange(0, 3)[0] != "sp_"@[0] || c.subrange(0, 3)[1] != "sp_"@[1]); } }
    }
}

proof fn lemma_code_round_trip(s: DomainSpecialty)
    ensures
        specialty_from_code_spec(specialty_code_spec(s)) == s,
{
    match s {
        DomainSpecialty::System => { reveal_strlit("system"); }
        DomainSpecialty::Telemetry => { reveal_strlit("telemetry"); reveal_strlit("system"); assert("telemetry"@.len() != "system"@.len()); }
        DomainSpecialty::Network => { reveal_strlit("network"); reveal_strlit("system"); assert("network"@.len() != "system"@.len()); reveal_strlit("telemetry"); assert("network"@.len() != "telemetry"@.len()); }
        DomainSpecialty::Processes => { reveal_strlit("processes"); reveal_strlit("system"); assert("processes"@.len() != "system"@.len()); reveal_strlit("telemetry"); assert("processes"@[0] != "telemetry"@[0]); reveal_strlit("network"); assert("processes"@.len() != "network"@.len()); }
        DomainSpecialty::Services => { reveal_strlit("services"); reveal_strlit("system"); assert("services"@.len() != "system"@.len()); reveal_strlit("telemetry"); assert("services"@.len() != "telemetry"@.len()); reveal_strlit("network"); assert("services"@.len() != "network"@.len()); reveal_strlit("processes"); assert("services"@.len() != "processes"@.len()); }
        DomainSpecialty::Maintenance => { reveal_strlit("maintenance"); reveal_strlit("system"); assert("maintenance"@.len() != "system"@.len()); reveal_strlit("telemetry"); assert("maintenance"@.len() != "telemetry"@.len()); reveal_strlit("network"); assert("maintenance"@.len() != "network"@.len()); reveal_strlit("processes"); assert("maintenance"@.len() != "processes"@.len()); reveal_strlit("services"); assert("maintenance"@.len() != "services"@.len()); }
        DomainSpecialty::Security => { reveal_strlit("security"); reveal_strlit("system"); assert("security"@.len() != "system"@.len()); reveal_strlit("telemetry"); assert("security"@.len() != "telemetry"@.len()); reveal_strlit("network"); assert("security"@.len() != "network"@.len()); reveal_strlit("processes"); assert("security"@.len() != "processes"@.len()); reveal_strlit("services"); assert("security"@[2] != "services"@[2]); reveal_strlit("maintenance"); assert("security"@.len() != "maintenance"@.len()); }
        DomainSpecialty::Drivers => { reveal_strlit("drivers"); reveal_strlit("system"); assert("drivers"@.len() != "system"@.len()); reveal_strlit("telemetry"); assert("drivers"@.len() != "telemetry"@.len()); reveal_strlit("network"); assert("drivers"@[0] != "network"@[0]); reveal_strlit("processes"); assert("drivers"@.len() != "processes"@.len()); reveal_strlit("services"); assert("drivers"@.len() != "services"@.len()); reveal_strlit("maintenance"); assert("drivers"@.len() != "maintenance"@.len()); reveal_strlit("security"); assert("drivers"@.len() != "security"@.len()); }
        DomainSpecialty::Filesystem => { reveal_strlit("filesystem"); reveal_strlit("system"); assert("filesystem"@.len() != "system"@.len()); reveal_strlit("telemetry"); assert("filesystem"@.len() != "telemetry"@.len()); reveal_strlit("network"); assert("filesystem"@.len() != "network"@.len()); reveal_strlit("processes"); assert("filesystem"@.len() != "processes"@.len()); reveal_strlit("services"); assert("filesystem"@.len() != "services"@.len()); reveal_strlit("maintenance"); assert("filesystem"@.len() != "maintenance"@.len()); reveal_strlit("security"); assert("filesystem"@.len() != "security"@.len()); reveal_strlit("drivers"); assert("filesystem"@.len() != "drivers"@.len()); }
        DomainSpecialty::Audit => { reveal_strlit("audit"); reveal_strlit("system"); assert("audit"@.len() != "system"@.len()); reveal_strlit("telemetry"); assert("audit"@.len() != "telemetry"@.len()); reveal_strlit("network"); assert("audit"@.len() != "network"@.len()); reveal_strlit("processes"); assert("audit"@.len() != "processes"@.len()); reveal_strlit("services"); assert("audit"@.len() != "services"@.len()); reveal_strlit("maintenance"); assert("audit"@.len() != "maintenance"@.len()); reveal_strlit("security"); assert("audit"@.len() != "security"@.len()); reveal_strlit("drivers"); assert("audit"@.len() != "drivers"@.len()); reveal_strlit("filesystem"); assert("audit"@.len() != "filesystem"@.len()); }
        DomainSpecialty::Performance => { reveal_strlit("performance"); reveal_strlit("system"); assert("performance"@.len() != "system"@.len()); reveal_strlit("telemetry"); assert("performance"@.len() != "telemetry"@.len()); reveal_strlit("network"); assert("performance"@.len() != "network"@.len()); reveal_strlit("processes"); assert("performance"@.len() != "processes"@.len()); reveal_strlit("services"); assert("performance"@.len() != "services"@.len()); reveal_strlit("maintenance"); assert("performance"@[0] != "maintenance"@[0]); reveal_strlit("security"); assert("performance"@.len() != "security"@.len()); reveal_strlit("drivers"); assert("performance"@.len() != "drivers"@.len()); reveal_strlit("filesystem"); assert("performance"@.len() != "filesystem"@.len()); reveal_strlit("audit"); assert("performance"@.len() != "audit"@.len()); }
        DomainSpecialty::Software => { reveal_strlit("software"); reveal_strlit("system"); assert("software"@.len() != "system"@.len()); reveal_strlit("telemetry"); assert("software"@.len() != "telemetry"@.len()); reveal_strlit("network"); assert("software"@.len() != "network"@.len()); reveal_strlit("processes"); assert("software"@.len() != "processes"@.len()); reveal_strlit("services"); assert("software"@[1] != "services"@[1]); reveal_strlit("maintenance"); assert("software"@.len() != "maintenance"@.len()); reveal_strlit("security"); assert("software"@[1] != "security"@[1]); reveal_strlit("drivers"); assert("software"@.len() != "drivers"@.len()); reveal_strlit("filesystem"); assert("software"@.len() != "filesystem"@.len()); reveal_strlit("audit"); assert("software"@.len() != "audit"@.len()); reveal_strlit("performance"); assert("software"@.len() != "performance"@.len()); }
        DomainSpecialty::SensitiveOps => { reveal_strlit("sensitive_ops"); reveal_strlit("system"); assert("sensitive_ops"@.len() != "system"@.len()); reveal_strlit("telemetry"); assert("sensitive_ops"@.len() != "telemetry"@.len()); reveal_strlit("network"); assert("sensitive_ops"@.len() != "network"@.len()); reveal_strlit("processes"); assert("sensitive_ops"@.len() != "processes"@.len()); reveal_strlit("services"); assert("sensitive_ops"@.len() != "services"@.len()); reveal_strlit("maintenance"); assert("sensitive_ops"@.len() != "maintenance"@.len()); reveal_strlit("security"); assert("sensitive_ops"@.len() != "security"@.len()); reveal_strlit("drivers"); assert("sensitive_ops"@.len() != "drivers"@.len()); reveal_strlit("filesystem"); assert("sensitive_ops"@.len() != "filesystem"@.len()); reveal_strlit("audit"); assert("sensitive_ops"@.len() != "audit"@.len()); reveal_strlit("performance"); assert("sensitive_ops"@.len() != "performance"@.len()); reveal_strlit("software"); assert("sensitive_ops"@.len() != "software"@.len()); }
        DomainSpecialty::Megaboss => { reveal_strlit("megaboss"); reveal_strlit("system"); assert("megaboss"@.len() != "system"@.len()); reveal_strlit("telemetry"); assert("megaboss"@.len() != "telemetry"@.len()); reveal_strlit("network"); assert("megaboss"@.len() != "network"@.len()); reveal_strlit("processes"); assert("megaboss"@.len() != "processes"@.len()); reveal_strlit("services"); assert("megaboss"@[0] != "services"@[0]); reveal_strlit("maintenance"); assert("megaboss"@.len() != "maintenance"@.len()); reveal_strlit("security"); assert("megaboss"@[0] != "security"@[0]); reveal_strlit("drivers"); assert("megaboss"@.len() != "drivers"@.len()); reveal_strlit("filesystem"); assert("megaboss"@.len() != "filesystem"@.len()); reveal_strlit("audit"); assert("megaboss"@.len() != "audit"@.len()); reveal_strlit("performance"); assert("megaboss"@.len() != "performance"@.len()); reveal_strlit("software"); assert("megaboss"@[0] != "software"@[0]); reveal_strlit("sensitive_ops"); assert("megaboss"@.len() != "sensitive_ops"@.len()); }
        DomainSpecialty::Unknown => { reveal_strlit("unknown"); reveal_strlit("system"); assert("unknown"@.len() != "system"@.len()); reveal_strlit("telemetry"); assert("unknown"@.len() != "telemetry"@.len()); reveal_strlit("network"); assert("unknown"@[0] != "network"@[0]); reveal_strlit("processes"); assert("unknown"@.len() != "processes"@.len()); reveal_strlit("services"); assert("unknown"@.len() != "services"@.len()); reveal_strlit("maintenance"); assert("unknown"@.len() != "maintenance"@.len()); reveal_strlit("security"); assert("unknown"@.len() != "security"@.len()); reveal_strlit("drivers"); assert("unknown"@[0] != "drivers"@[0]); reveal_strlit("filesystem"); assert("unknown"@.len() != "filesystem"@.len()); reveal_strlit("audit"); assert("unknown"@.len() != "audit"@.len()); reveal_strlit("performance"); assert("unknown"@.len() != "performance"@.len()); reveal_strlit("software"); assert("unknown"@.len() != "software"@.len()); reveal_strlit("sensitive_ops"); assert("unknown"@.len() != "sensitive_ops"@.len()); reveal_strlit("megaboss"); assert("unknown"@.len() != "megaboss"@.len()); }
    }
}


// ---------------------------------------------------------------------------
// Semantic expansion
// ---------------------------------------------------------------------------

/// Words that stand for a topic, with the topic's anchor word.
pub open spec fn synonym_table() -> Seq<(Seq<char>, Seq<Seq<char>>)> {
    seq![
        ("dns"@, seq!["resolucion"@, "resolver"@, "dominio"@, "dominios"@, "nombre"@, "nombres"@]),
        ("internet"@, seq!["navegacion"@, "conectividad"@, "conexion"@, "online"@]),
        ("gateway"@, seq!["puerta"@, "enlace"@, "router"@]),
        ("wifi"@, seq!["inalambrica"@, "wireless"@, "ssid"@]),
        ("spooler"@, seq!["impresion"@, "imprimir"@, "impresora"@, "cola"@]),
        ("driver"@, seq!["controlador"@, "dispositivo"@]),
        ("gpu"@, seq!["video"@, "grafica"@, "pantalla"@]),
        ("disco"@, seq!["almacenamiento"@, "io"@, "i/o"@]),
        ("lento"@, seq!["lentitud"@, "bloqueo"@, "demora"@]),
    ]
}

/// The synonym table of semantic expansion: each anchor with its synonyms.
pub fn synonyms() -> (r: Vec<(&'static str, Vec<&'static str>)>)
    ensures
        rule_views(r@) == synonym_table(),
{
    let r = vec![
        ("dns", vec!["resolucion", "resolver", "dominio", "dominios", "nombre", "nombres"]),
        ("internet", vec!["navegacion", "conectividad", "conexion", "online"]),
        ("gateway", vec!["puerta", "enlace", "router"]),
        ("wifi", vec!["inalambrica", "wireless", "ssid"]),
        ("spooler", vec!["impresion", "imprimir", "impresora", "cola"]),
        ("driver", vec!["controlador", "dispositivo"]),
        ("gpu", vec!["video", "grafica", "pantalla"]),
        ("disco", vec!["almacenamiento", "io", "i/o"]),
        ("lento", vec!["lentitud", "bloqueo", "demora"]),
    ];
    assert(views_of(r@[0].1@) =~= seq!["resolucion"@, "resolver"@, "dominio"@, "dominios"@, "nombre"@, "nombres"@]);
    assert(views_of(r@[1].1@) =~= seq!["navegacion"@, "conectividad"@, "conexion"@, "online"@]);
    assert(views_of(r@[2].1@) =~= seq!["puerta"@, "enlace"@, "router"@]);
    assert(views_of(r@[3].1@) =~= seq!["inalambrica"@, "wireless"@, "ssid"@]);
    assert(views_of(r@[4].1@) =~= seq!["impresion"@, "imprimir"@, "impresora"@, "cola"@]);
    assert(views_of(r@[5].1@) =~= seq!["controlador"@, "dispositivo"@]);
    assert(views_of(r@[6].1@) =~= seq!["video"@, "grafica"@, "pantalla"@]);
    assert(views_of(r@[7].1@) =~= seq!["almacenamiento"@, "io"@, "i/o"@]);
    assert(views_of(r@[8].1@) =~= seq!["lentitud"@, "bloqueo"@, "demora"@]);
    assert(rule_views(r@) =~= synonym_table());
    r
}

/// The topics a word belongs to, each as its anchor followed by its words.
pub open spec fn expansions(t: Seq<char>, table: Seq<(Seq<char>, Seq<Seq<char>>)>) -> Seq<Seq<char>>
    decreases table.len(),
{
    if table.len() == 0 {
        Seq::empty()
    } else {
        let prev = expansions(t, table.drop_last());
        let entry = table.last();
        if t == entry.0 || entry.1.contains(t) { prev + seq![entry.0] + entry.1 } else { prev }
    }
}

/// Each word followed by the topics it belongs to.
pub open spec fn expand_all(ts: Seq<Seq<char>>) -> Seq<Seq<char>>
    decreases ts.len(),
{
    if ts.len() == 0 {
        Seq::empty()
    } else {
        expand_all(ts.drop_last()) + seq![ts.last()] + expansions(ts.last(), synonym_table())
    }
}

/// The text a query is embedded from: its text, symptoms and entities,
/// normalized, with each word followed by the topics it belongs to.
pub open spec fn semantic_query_spec(a: QueryAnalysis) -> Seq<char> {
    let parts = seq![a.normalized_text@] + string_views(a.symptoms@) + string_views(a.entities@);
    join_seqs(expand_all(words(retrieval_normalize_spec(join_seqs(parts, " "@)))), " "@)
}

fn push_all(out: &mut Vec<String>, items: &Vec<&'static str>)
    ensures
        string_views(final(out)@) == string_views(old(out)@) + views_of(items@),
{
    let ghost start = string_views(out@);
    let mut i: usize = 0;
    while i < items.len()
        invariant
            i <= items.len(),
            string_views(out@) == start + views_of(items@).take(i as int),
        decreases items.len() - i,
    {
        let ghost before = out@;
        let w = owned(items[i]);
        out.push(w);
        assert(string_views(out@) =~= string_views(before).push(w@));
        assert(views_of(items@).take(i as int + 1) =~= views_of(items@).take(i as int).push(items@[i as int]@));
        i += 1;
    }
    assert(views_of(items@).take(items.len() as int) =~= views_of(items@));
}

/// The text a query is embedded from.
pub fn semantic_query_text(analysis: &QueryAnalysis) -> (r: String)
    ensures
        r@ == semantic_query_spec(*analysis),
{
    let mut parts: Vec<String> = Vec::new();
    parts.push(analysis.normalized_text.clone());
    let mut i: usize = 0;
    while i < analysis.symptoms.len()
        invariant
            i <= analysis.symptoms.len(),
            string_views(parts@) == seq![analysis.normalized_text@] + string_views(analysis.symptoms@).take(i as int),
        decreases analysis.symptoms.len() - i,
    {
        let ghost before = parts@;
        let c = analysis.symptoms[i].clone();
        parts.push(c);
        assert(string_views(parts@) =~= string_views(before).push(c@));
        assert(string_views(analysis.symptoms@).take(i as int + 1) =~= string_views(analysis.symptoms@).take(i as int).push(c@));
        i += 1;
    }
    assert(string_views(analysis.symptoms@).take(analysis.symptoms.len() as int) =~= string_views(analysis.symptoms@));
    let ghost head = string_views(parts@);
    let mut k: usize = 0;
    while k < analysis.entities.len()
        invariant
            k <= analysis.entities.len(),
            string_views(parts@) == head + string_views(analysis.entities@).take(k as int),
        decreases analysis.entities.len() - k,
    {
        let ghost before = parts@;
        let c = analysis.entities[k].clone();
        parts.push(c);
        assert(string_views(parts@) =~= string_views(before).push(c@));
        assert(string_views(analysis.entities@).take(k as int + 1) =~= string_views(analysis.entities@).take(k as int).push(c@));
        k += 1;
    }
    assert(string_views(analysis.entities@).take(analysis.entities.len() as int) =~= string_views(analysis.entities@));
    let joined = join_strings(&parts, " ");
    let normalized = normalize_text(joined.as_str());
    let tokens = tokenize(normalized.as_str());
    let table = synonyms();
    let mut expanded: Vec<String> = Vec::new();
    let mut t: usize = 0;
    while t < tokens.len()
        invariant
            t <= tokens.len(),
            rule_views(table@) == synonym_table(),
            string_views(expanded@) == expand_all(string_views(tokens@).take(t as int)),
        decreases tokens.len() - t,
    {
        assert(string_views(tokens@).take(t as int + 1).drop_last() =~= string_views(tokens@).take(t as int));
        let token = tokens[t].as_str();
        let ghost before = string_views(expanded@);
        expanded.push(tokens[t].clone());
        let ghost mid = string_views(expanded@);
        assert(mid =~= before + seq![token@]);
        let mut e: usize = 0;
        while e < table.len()
            invariant
                e <= table.len(),
                rule_views(table@) == synonym_table(),
                string_views(expanded@) == mid + expansions(token@, synonym_table().take(e as int)),
            decreases table.len() - e,
        {
            assert(synonym_table().take(e as int + 1).drop_last() =~= synonym_table().take(e as int));
            assert(synonym_table()[e as int] == (table@[e as int].0@, views_of(table@[e as int].1@)));
            if str_eq(token, table[e].0) || member(token, table[e].1.as_slice()) {
                let ghost pre = string_views(expanded@);
                let a = owned(table[e].0);
                expanded.push(a);
                assert(string_views(expanded@) =~= pre + seq![a@]);
                push_all(&mut expanded, &table[e].1);
                assert(expansions(token@, synonym_table().take(e as int + 1))
                    =~= expansions(token@, synonym_table().take(e as int)) + seq![table@[e as int].0@] + views_of(table@[e as int].1@));
            }
            e += 1;
        }
        assert(synonym_table().take(table.len() as int) =~= synonym_table());
        assert(expand_all(string_views(tokens@).take(t as int + 1))
            =~= expand_all(string_views(tokens@).take(t as int)) + seq![token@] + expansions(token@, synonym_table()));
        t += 1;
    }
    assert(string_views(tokens@).take(tokens.len() as int) =~= string_views(tokens@));
    join_strings(&expanded, " ")
}

// ---------------------------------------------------------------------------
// Hashing words into embedding slots
// ---------------------------------------------------------------------------

/// FNV-1a over bytes, 64 bits.
pub open spec fn fnv1a(bytes: Seq<u8>) -> u64
    decreases bytes.len(),
{
    if bytes.len() == 0 {
        1469598103934665603u64
    } else {
        let h = fnv1a(bytes.drop_last()) ^ (bytes.last() as u64);
        ((h as nat * 1099511628211nat) % 0x1_0000_0000_0000_0000nat) as u64
    }
}

/// The embedding slot of a word: its FNV-1a hash modulo the embedding size.
pub fn stable_index(token: &str) -> (r: usize)
    ensures
        r as nat == (fnv1a(token.spec_bytes()) as nat) % (EMBEDDING_DIM as nat),
        r < EMBEDDING_DIM,
{
    let bytes = token.as_bytes();
    let mut hash: u64 = 1469598103934665603;
    let mut i: usize = 0;
    while i < bytes.len()
        invariant
            i <= bytes.len(),
            bytes@ == token.spec_bytes(),
            hash == fnv1a(bytes@.take(i as int)),
        decreases bytes.len() - i,
    {
        assert(bytes@.take(i as int + 1).drop_last() =~= bytes@.take(i as int));
        hash = hash ^ (bytes[i] as u64);
        hash = hash.wrapping_mul(1099511628211);
        i += 1;
    }
    assert(bytes@.take(bytes.len() as int) =~= bytes@);
    (hash % 64) as usize
}

} // verus!
