//! Operational intent analysis of a support request: intent, emotion,
//! urgency, symptoms, tags, criticality and the recommended plan.

use vstd::prelude::*;
use crate::rules::{labels_for, matching_labels, rule_views};
use crate::text::seq_contains;
use crate::text::{
    chars_of, contains_any as contains_any_chars, contains_any_spec, is_whitespace, lowercase_chars,
    lowercase_of, owned, push_char, str_eq, string_from_chars, string_views, trim_chars, trim_seq, views_of,
    join_seqs, join_strings, decimal, decimal_string,
};

verus! {

#[derive(Debug, Clone, Copy, PartialEq, Eq, Structural)]
pub enum IntentCategory {
    Network,
    Performance,
    Security,
    Maintenance,
    Drivers,
    Files,
    Services,
    Updates,
    GeneralSupport,
}

#[derive(Debug, Clone, Copy, PartialEq, Eq, Structural)]
pub enum EmotionCategory {
    Neutral,
    Frustrated,
    Urgent,
    Confused,
}

#[derive(Debug, Clone, Copy, PartialEq, Eq, Structural)]
pub enum CriticalityLevel {
    Low,
    Medium,
    High,
    Critical,
}

#[derive(Debug, Clone, Copy, PartialEq, Eq, Structural)]
pub enum UrgencyLevel {
    Low,
    Normal,
    High,
    Immediate,
}

// ---------------------------------------------------------------------------
// Normalization
// ---------------------------------------------------------------------------

/// Folds the lowercase Spanish accented vowels and `ñ`.
pub open spec fn intent_fold(c: char) -> char {
    if c == 'á' { 'a' } else if c == 'é' { 'e' } else if c == 'í' { 'i' } else if c == 'ó' { 'o' }
    else if c == 'ú' { 'u' } else if c == 'ñ' { 'n' } else { c }
}

/// Replaces each pair of spaces by one space, scanning left to right without
/// overlap (`str::replace("  ", " ")`).
pub open spec fn halve_double_spaces(s: Seq<char>) -> Seq<char>
    decreases s.len(),
{
    if s.len() >= 2 && s[0] == ' ' && s[1] == ' ' {
        seq![' '] + halve_double_spaces(s.skip(2))
    } else if s.len() >= 1 {
        seq![s[0]] + halve_double_spaces(s.skip(1))
    } else {
        s
    }
}

/// The normalized form of a request: lowercased, accents folded, double
/// spaces halved, trimmed.
pub open spec fn intent_normalize_spec(s: Seq<char>) -> Seq<char> {
    trim_seq(halve_double_spaces(lowercase_of(s).map_values(|c: char| intent_fold(c))))
}

fn fold(c: char) -> (r: char)
    ensures
        r == intent_fold(c),
{
    if c == 'á' { 'a' } else if c == 'é' { 'e' } else if c == 'í' { 'i' } else if c == 'ó' { 'o' }
    else if c == 'ú' { 'u' } else if c == 'ñ' { 'n' } else { c }
}

fn halve(s: &Vec<char>) -> (res: Vec<char>)
    ensures
        res@ == halve_double_spaces(s@),
{
    let mut out: Vec<char> = Vec::new();
    let mut i: usize = 0;
    assert(s@.skip(0) =~= s@);
    assert(out@ + halve_double_spaces(s@) =~= halve_double_spaces(s@));
    while i < s.len()
        invariant
            i <= s.len(),
            halve_double_spaces(s@) == out@ + halve_double_spaces(s@.skip(i as int)),
        decreases s.len() - i,
    {
        let ghost rest = s@.skip(i as int);
        if i + 1 < s.len() && s[i] == ' ' && s[i + 1] == ' ' {
            assert(rest.skip(2) =~= s@.skip(i + 2));
            out.push(' ');
            assert(out@ + halve_double_spaces(s@.skip(i + 2))
                =~= out@.drop_last() + (seq![' '] + halve_double_spaces(rest.skip(2))));
            i += 2;
        } else {
            assert(rest.skip(1) =~= s@.skip(i + 1));
            let c = s[i];
            out.push(c);
            assert(out@ + halve_double_spaces(s@.skip(i + 1))
                =~= out@.drop_last() + (seq![c] + halve_double_spaces(rest.skip(1))));
            i += 1;
        }
    }
    assert(s@.skip(i as int) =~= Seq::<char>::empty());
    assert(out@ + Seq::<char>::empty() =~= out@);
    out
}

/// Normalizes a request for intent analysis.
pub fn normalize_text(input: &str) -> (res: String)
    ensures
        res@ == intent_normalize_spec(input@),
{
    let lowered = lowercase_chars(input);
    let mut folded: Vec<char> = Vec::new();
    let mut i: usize = 0;
    while i < lowered.len()
        invariant
            i <= lowered.len(),
            folded@ == lowered@.take(i as int).map_values(|c: char| intent_fold(c)),
        decreases lowered.len() - i,
    {
        folded.push(fold(lowered[i]));
        assert(lowered@.take(i as int + 1).map_values(|c: char| intent_fold(c))
            =~= lowered@.take(i as int).map_values(|c: char| intent_fold(c)).push(intent_fold(lowered@[i as int])));
        i += 1;
    }
    assert(lowered@.take(lowered.len() as int) =~= lowered@);
    let halved = halve(&folded);
    let trimmed = trim_chars(&halved);
    string_from_chars(&trimmed)
}

/// The normalized request followed by each normalized context item, separated
/// by single spaces.
pub open spec fn context_text_spec(normalized: Seq<char>, recent: Seq<Seq<char>>) -> Seq<char>
    decreases recent.len(),
{
    if recent.len() == 0 {
        normalized
    } else {
        context_text_spec(normalized, recent.drop_last()).push(' ') + intent_normalize_spec(recent.last())
    }
}

/// Joins the normalized request with the normalized recent context.
pub fn build_context_text(normalized: &str, recent_context: &[String]) -> (res: String)
    ensures
        res@ == context_text_spec(normalized@, string_views(recent_context@)),
{
    let mut all = owned(normalized);
    let mut k: usize = 0;
    while k < recent_context.len()
        invariant
            k <= recent_context.len(),
            all@ == context_text_spec(normalized@, string_views(recent_context@).take(k as int)),
        decreases recent_context.len() - k,
    {
        assert(string_views(recent_context@).take(k as int + 1).drop_last()
            =~= string_views(recent_context@).take(k as int));
        push_char(&mut all, ' ');
        let item = normalize_text(recent_context[k].as_str());
        all.append(item.as_str());
        k += 1;
    }
    assert(string_views(recent_context@).take(recent_context.len() as int)
        =~= string_views(recent_context@));
    all
}

/// Whether any of the terms occurs in `text`.
pub fn contains_any(text: &str, terms: &[&str]) -> (r: bool)
    ensures
        r == contains_any_spec(text@, views_of(terms@)),
{
    let t = chars_of(text);
    contains_any_chars(&t, terms)
}

/// Appends `label` to `out` when any of the terms occurs in `text`.
pub fn push_if(text: &str, out: &mut Vec<String>, label: &str, terms: &[&str])
    ensures
        contains_any_spec(text@, views_of(terms@)) ==> string_views(final(out)@)
            == string_views(old(out)@).push(label@),
        !contains_any_spec(text@, views_of(terms@)) ==> final(out)@ == old(out)@,
{
    if contains_any(text, terms) {
        out.push(owned(label));
        assert(string_views(out@) =~= string_views(old(out)@).push(label@));
    }
}

} // verus!

verus! {

/// The first domain (network, performance, security, drivers, files, services, updates, maintenance) whose terms occur; general support otherwise.
pub open spec fn intent_spec(text: Seq<char>) -> IntentCategory {
    if contains_any_spec(text, seq!["dns"@, "wifi"@, "internet"@, "red"@, "gateway"@, "latencia"@, "ping"@]) {
        IntentCategory::Network
    } else if contains_any_spec(text, seq!["lento"@, "rendimiento"@, "cpu"@, "ram"@, "temperatura"@, "congelado"@]) {
        IntentCategory::Performance
    } else if contains_any_spec(text, seq!["virus"@, "malware"@, "defender"@, "firewall"@, "seguridad"@, "intruso"@]) {
        IntentCategory::Security
    } else if contains_any_spec(text, seq!["driver"@, "controlador"@, "audio"@, "gpu"@, "usb"@, "pantalla"@]) {
        IntentCategory::Drivers
    } else if contains_any_spec(text, seq!["archivo"@, "escritorio"@, "carpeta"@, "documento"@, "explorar"@]) {
        IntentCategory::Files
    } else if contains_any_spec(text, seq!["servicio"@, "service"@, "spooler"@, "reiniciar servicio"@]) {
        IntentCategory::Services
    } else if contains_any_spec(text, seq!["update"@, "actualizacion"@, "windows update"@, "parche"@]) {
        IntentCategory::Updates
    } else if contains_any_spec(text, seq!["limpieza"@, "temporales"@, "mantenimiento"@, "optimizar"@, "cache"@]) {
        IntentCategory::Maintenance
    } else {
        IntentCategory::GeneralSupport
    }
}

/// Classifies the intent of a normalized request by the first matching domain.
pub fn classify_intent(text: &str) -> (res: IntentCategory)
    ensures
        res == intent_spec(text@),
{
    let terms0: [&str; 7] = ["dns", "wifi", "internet", "red", "gateway", "latencia", "ping"];
    assert(views_of(terms0@) =~= seq!["dns"@, "wifi"@, "internet"@, "red"@, "gateway"@, "latencia"@, "ping"@]);
    if contains_any(text, &terms0) {
        return IntentCategory::Network;
    }
    let terms1: [&str; 6] = ["lento", "rendimiento", "cpu", "ram", "temperatura", "congelado"];
    assert(views_of(terms1@) =~= seq!["lento"@, "rendimiento"@, "cpu"@, "ram"@, "temperatura"@, "congelado"@]);
    if contains_any(text, &terms1) {
        return IntentCategory::Performance;
    }
    let terms2: [&str; 6] = ["virus", "malware", "defender", "firewall", "seguridad", "intruso"];
    assert(views_of(terms2@) =~= seq!["virus"@, "malware"@, "defender"@, "firewall"@, "seguridad"@, "intruso"@]);
    if contains_any(text, &terms2) {
        return IntentCategory::Security;
    }
    let terms3: [&str; 6] = ["driver", "controlador", "audio", "gpu", "usb", "pantalla"];
    assert(views_of(terms3@) =~= seq!["driver"@, "controlador"@, "audio"@, "gpu"@, "usb"@, "pantalla"@]);
    if contains_any(text, &terms3) {
        return IntentCategory::Drivers;
    }
    let terms4: [&str; 5] = ["archivo", "escritorio", "carpeta", "documento", "explorar"];
    assert(views_of(terms4@) =~= seq!["archivo"@, "escritorio"@, "carpeta"@, "documento"@, "explorar"@]);
    if contains_any(text, &terms4) {
        return IntentCategory::Files;
    }
    let terms5: [&str; 4] = ["servicio", "service", "spooler", "reiniciar servicio"];
    assert(views_of(terms5@) =~= seq!["servicio"@, "service"@, "spooler"@, "reiniciar servicio"@]);
    if contains_any(text, &terms5) {
        return IntentCategory::Services;
    }
    let terms6: [&str; 4] = ["update", "actualizacion", "windows update", "parche"];
    assert(views_of(terms6@) =~= seq!["update"@, "actualizacion"@, "windows update"@, "parche"@]);
    if contains_any(text, &terms6) {
        return IntentCategory::Updates;
    }
    let terms7: [&str; 5] = ["limpieza", "temporales", "mantenimiento", "optimizar", "cache"];
    assert(views_of(terms7@) =~= seq!["limpieza"@, "temporales"@, "mantenimiento"@, "optimizar"@, "cache"@]);
    if contains_any(text, &terms7) {
        return IntentCategory::Maintenance;
    }
    IntentCategory::GeneralSupport
}

/// Urgent, frustrated or confused wording, in that order of precedence; neutral otherwise.
pub open spec fn emotion_spec(text: Seq<char>) -> EmotionCategory {
    if contains_any_spec(text, seq!["urgente"@, "ahora"@, "ya"@, "inmediato"@]) {
        EmotionCategory::Urgent
    } else if contains_any_spec(text, seq!["no funciona"@, "fallo"@, "error"@, "se cayo"@, "crash"@, "colgado"@]) {
        EmotionCategory::Frustrated
    } else if contains_any_spec(text, seq!["no entiendo"@, "que hago"@, "ayuda"@, "como"@]) {
        EmotionCategory::Confused
    } else {
        EmotionCategory::Neutral
    }
}

/// Classifies the emotional tone of a normalized request.
pub fn classify_emotion(text: &str) -> (res: EmotionCategory)
    ensures
        res == emotion_spec(text@),
{
    let terms0: [&str; 4] = ["urgente", "ahora", "ya", "inmediato"];
    assert(views_of(terms0@) =~= seq!["urgente"@, "ahora"@, "ya"@, "inmediato"@]);
    if contains_any(text, &terms0) {
        return EmotionCategory::Urgent;
    }
    let terms1: [&str; 6] = ["no funciona", "fallo", "error", "se cayo", "crash", "colgado"];
    assert(views_of(terms1@) =~= seq!["no funciona"@, "fallo"@, "error"@, "se cayo"@, "crash"@, "colgado"@]);
    if contains_any(text, &terms1) {
        return EmotionCategory::Frustrated;
    }
    let terms2: [&str; 4] = ["no entiendo", "que hago", "ayuda", "como"];
    assert(views_of(terms2@) =~= seq!["no entiendo"@, "que hago"@, "ayuda"@, "como"@]);
    if contains_any(text, &terms2) {
        return EmotionCategory::Confused;
    }
    EmotionCategory::Neutral
}

/// Immediate, high or low urgency wording, in that order of precedence; normal otherwise.
pub open spec fn urgency_spec(text: Seq<char>) -> UrgencyLevel {
    if contains_any_spec(text, seq!["caido"@, "produccion"@, "critico"@, "no arranca"@, "no puedo trabajar"@, "inmediato"@]) {
        UrgencyLevel::Immediate
    } else if contains_any_spec(text, seq!["urgente"@, "hoy"@, "bloqueado"@, "sin internet"@, "no responde"@]) {
        UrgencyLevel::High
    } else if contains_any_spec(text, seq!["cuando puedas"@, "revisar"@, "mejorar"@]) {
        UrgencyLevel::Low
    } else {
        UrgencyLevel::Normal
    }
}

/// Classifies the urgency of a request.
pub fn detect_urgency(text: &str) -> (res: UrgencyLevel)
    ensures
        res == urgency_spec(text@),
{
    let terms0: [&str; 6] = ["caido", "produccion", "critico", "no arranca", "no puedo trabajar", "inmediato"];
    assert(views_of(terms0@) =~= seq!["caido"@, "produccion"@, "critico"@, "no arranca"@, "no puedo trabajar"@, "inmediato"@]);
    if contains_any(text, &terms0) {
        return UrgencyLevel::Immediate;
    }
    let terms1: [&str; 5] = ["urgente", "hoy", "bloqueado", "sin internet", "no responde"];
    assert(views_of(terms1@) =~= seq!["urgente"@, "hoy"@, "bloqueado"@, "sin internet"@, "no responde"@]);
    if contains_any(text, &terms1) {
        return UrgencyLevel::High;
    }
    let terms2: [&str; 3] = ["cuando puedas", "revisar", "mejorar"];
    assert(views_of(terms2@) =~= seq!["cuando puedas"@, "revisar"@, "mejorar"@]);
    if contains_any(text, &terms2) {
        return UrgencyLevel::Low;
    }
    UrgencyLevel::Normal
}

/// Symptom labels and the phrases that reveal them.
pub open spec fn symptom_rules_spec() -> Seq<(Seq<char>, Seq<Seq<char>>)> {
    seq![
        ("sin internet"@, seq!["sin internet"@, "no hay internet"@, "internet malo"@]),
        ("latencia alta"@, seq!["latencia"@, "ping alto"@, "lento internet"@]),
        ("alto uso cpu"@, seq!["cpu alta"@, "cpu al"@, "procesador al 100"@]),
        ("alto uso ram"@, seq!["ram llena"@, "sin memoria"@, "ram alta"@]),
        ("errores drivers"@, seq!["driver"@, "controlador"@, "dispositivo desconocido"@]),
        ("servicio detenido"@, seq!["servicio detenido"@, "servicio caido"@, "service stopped"@]),
        ("fallo actualizaciones"@, seq!["windows update"@, "no actualiza"@, "error update"@]),
        ("riesgo seguridad"@, seq!["malware"@, "virus"@, "amenaza"@, "intruso"@]),
    ]
}

fn symptom_rules() -> (res: Vec<(&'static str, Vec<&'static str>)>)
    ensures
        rule_views(res@) == symptom_rules_spec(),
{
    let res = vec![
        ("sin internet", vec!["sin internet", "no hay internet", "internet malo"]),
        ("latencia alta", vec!["latencia", "ping alto", "lento internet"]),
        ("alto uso cpu", vec!["cpu alta", "cpu al", "procesador al 100"]),
        ("alto uso ram", vec!["ram llena", "sin memoria", "ram alta"]),
        ("errores drivers", vec!["driver", "controlador", "dispositivo desconocido"]),
        ("servicio detenido", vec!["servicio detenido", "servicio caido", "service stopped"]),
        ("fallo actualizaciones", vec!["windows update", "no actualiza", "error update"]),
        ("riesgo seguridad", vec!["malware", "virus", "amenaza", "intruso"]),
    ];
    assert(res@.len() == 8);
    assert(views_of(res@[0].1@) =~= seq!["sin internet"@, "no hay internet"@, "internet malo"@]);
    assert(views_of(res@[1].1@) =~= seq!["latencia"@, "ping alto"@, "lento internet"@]);
    assert(views_of(res@[2].1@) =~= seq!["cpu alta"@, "cpu al"@, "procesador al 100"@]);
    assert(views_of(res@[3].1@) =~= seq!["ram llena"@, "sin memoria"@, "ram alta"@]);
    assert(views_of(res@[4].1@) =~= seq!["driver"@, "controlador"@, "dispositivo desconocido"@]);
    assert(views_of(res@[5].1@) =~= seq!["servicio detenido"@, "servicio caido"@, "service stopped"@]);
    assert(views_of(res@[6].1@) =~= seq!["windows update"@, "no actualiza"@, "error update"@]);
    assert(views_of(res@[7].1@) =~= seq!["malware"@, "virus"@, "amenaza"@, "intruso"@]);
    assert(rule_views(res@) =~= symptom_rules_spec());
    res
}

/// The symptom labels whose phrases occur in the text, in table order.
pub fn detect_symptoms(text: &str) -> (res: Vec<String>)
    ensures
        string_views(res@) == matching_labels(text@, symptom_rules_spec()),
{
    let t = chars_of(text);
    let rules = symptom_rules();
    labels_for(&t, &rules)
}

} // verus!

verus! {

/// Lowercase name of an intent (its variant name, lowercased).
pub open spec fn intent_name(i: IntentCategory) -> Seq<char> {
    match i {
        IntentCategory::Network => "network"@,
        IntentCategory::Performance => "performance"@,
        IntentCategory::Security => "security"@,
        IntentCategory::Maintenance => "maintenance"@,
        IntentCategory::Drivers => "drivers"@,
        IntentCategory::Files => "files"@,
        IntentCategory::Services => "services"@,
        IntentCategory::Updates => "updates"@,
        IntentCategory::GeneralSupport => "generalsupport"@,
    }
}

/// Lowercase name of an urgency level.
pub open spec fn urgency_name(u: UrgencyLevel) -> Seq<char> {
    match u {
        UrgencyLevel::Low => "low"@,
        UrgencyLevel::Normal => "normal"@,
        UrgencyLevel::High => "high"@,
        UrgencyLevel::Immediate => "immediate"@,
    }
}

fn intent_label(i: IntentCategory) -> (r: &'static str)
    ensures
        r@ == intent_name(i),
{
    match i {
        IntentCategory::Network => "network",
        IntentCategory::Performance => "performance",
        IntentCategory::Security => "security",
        IntentCategory::Maintenance => "maintenance",
        IntentCategory::Drivers => "drivers",
        IntentCategory::Files => "files",
        IntentCategory::Services => "services",
        IntentCategory::Updates => "updates",
        IntentCategory::GeneralSupport => "generalsupport",
    }
}

fn urgency_label(u: UrgencyLevel) -> (r: &'static str)
    ensures
        r@ == urgency_name(u),
{
    match u {
        UrgencyLevel::Low => "low",
        UrgencyLevel::Normal => "normal",
        UrgencyLevel::High => "high",
        UrgencyLevel::Immediate => "immediate",
    }
}

/// Spaces of a symptom label turned into underscores.
pub open spec fn underscored(s: Seq<char>) -> Seq<char> {
    s.map_values(|c: char| if c == ' ' { '_' } else { c })
}

/// The tag of a symptom.
pub open spec fn symptom_tag(s: Seq<char>) -> Seq<char> {
    "symptom:"@ + underscored(s)
}

/// Tags of an analysis: its intent, its urgency, then one per symptom.
pub open spec fn tags_spec(intent: IntentCategory, urgency: UrgencyLevel, symptoms: Seq<Seq<char>>) -> Seq<Seq<char>> {
    seq!["intent:"@ + intent_name(intent), "urgency:"@ + urgency_name(urgency)]
        + symptoms.map_values(|s: Seq<char>| symptom_tag(s))
}

fn tag_of_symptom(symptom: &str) -> (res: String)
    ensures
        res@ == symptom_tag(symptom@),
{
    let cs = chars_of(symptom);
    let mut out = owned("symptom:");
    let mut i: usize = 0;
    while i < cs.len()
        invariant
            i <= cs.len(),
            cs@ == symptom@,
            out@ == "symptom:"@ + underscored(cs@.take(i as int)),
        decreases cs.len() - i,
    {
        let c = cs[i];
        push_char(&mut out, if c == ' ' { '_' } else { c });
        assert(underscored(cs@.take(i as int + 1)) =~= underscored(cs@.take(i as int)).push(
            if c == ' ' { '_' } else { c }));
        i += 1;
    }
    assert(cs@.take(cs.len() as int) =~= cs@);
    out
}

/// Builds the operational tags of an analysis.
pub fn build_operational_tags(intent: IntentCategory, urgency: UrgencyLevel, symptoms: &[String]) -> (res: Vec<String>)
    ensures
        string_views(res@) == tags_spec(intent, urgency, string_views(symptoms@)),
{
    let mut first = owned("intent:");
    first.append(intent_label(intent));
    let mut second = owned("urgency:");
    second.append(urgency_label(urgency));
    let mut tags: Vec<String> = vec![first, second];
    let ghost head = seq!["intent:"@ + intent_name(intent), "urgency:"@ + urgency_name(urgency)];
    assert(string_views(tags@) =~= head);
    let mut k: usize = 0;
    while k < symptoms.len()
        invariant
            k <= symptoms.len(),
            string_views(tags@) == head + string_views(symptoms@).take(k as int).map_values(
                |s: Seq<char>| symptom_tag(s)),
        decreases symptoms.len() - k,
    {
        let t = tag_of_symptom(symptoms[k].as_str());
        let ghost prev = string_views(tags@);
        tags.push(t);
        assert(string_views(tags@) =~= prev.push(t@));
        assert(string_views(symptoms@).take(k as int + 1).map_values(|s: Seq<char>| symptom_tag(s))
            =~= string_views(symptoms@).take(k as int).map_values(|s: Seq<char>| symptom_tag(s)).push(
            symptom_tag(symptoms@[k as int]@)));
        assert(symptoms@[k as int]@ == string_views(symptoms@)[k as int]);
        assert(head + string_views(symptoms@).take(k as int + 1).map_values(|s: Seq<char>| symptom_tag(s))
            =~= (head + string_views(symptoms@).take(k as int).map_values(|s: Seq<char>| symptom_tag(s))).push(t@));
        k += 1;
    }
    assert(string_views(symptoms@).take(symptoms.len() as int) =~= string_views(symptoms@));
    tags
}

/// Whether some symptom is one of the two that raise criticality.
pub open spec fn has_alarming_symptom(symptoms: Seq<Seq<char>>) -> bool {
    exists|k: int| 0 <= k < symptoms.len()
        && (#[trigger] symptoms[k] == "riesgo seguridad"@ || symptoms[k] == "sin internet"@)
}

/// Criticality: critical for immediate urgency or production-stopping
/// wording; high for high urgency or a security / connectivity symptom; low
/// for maintenance or general requests without symptoms; medium otherwise.
pub open spec fn criticality_spec(
    intent: IntentCategory,
    urgency: UrgencyLevel,
    symptoms: Seq<Seq<char>>,
    text: Seq<char>,
) -> CriticalityLevel {
    if urgency == UrgencyLevel::Immediate
        || contains_any_spec(text, seq!["produccion"@, "empresa detenida"@, "no arranca"@]) {
        CriticalityLevel::Critical
    } else if urgency == UrgencyLevel::High || has_alarming_symptom(symptoms) {
        CriticalityLevel::High
    } else if (intent == IntentCategory::Maintenance || intent == IntentCategory::GeneralSupport)
        && symptoms.len() == 0 {
        CriticalityLevel::Low
    } else {
        CriticalityLevel::Medium
    }
}

/// Classifies the criticality of a request.
pub fn classify_criticality(
    intent: IntentCategory,
    urgency: UrgencyLevel,
    symptoms: &[String],
    text: &str,
) -> (res: CriticalityLevel)
    ensures
        res == criticality_spec(intent, urgency, string_views(symptoms@), text@),
        (string_views(symptoms@).contains("riesgo seguridad"@) || string_views(symptoms@).contains("sin internet"@)
            || urgency == UrgencyLevel::High) && res != CriticalityLevel::Critical ==> res == CriticalityLevel::High,
{
    proof {
        lemma_criticality_levels(intent, urgency, string_views(symptoms@), text@);
    }
    let stop_terms: [&str; 3] = ["produccion", "empresa detenida", "no arranca"];
    assert(views_of(stop_terms@) =~= seq!["produccion"@, "empresa detenida"@, "no arranca"@]);
    if urgency == UrgencyLevel::Immediate || contains_any(text, &stop_terms) {
        return CriticalityLevel::Critical;
    }
    let mut alarming = false;
    let mut k: usize = 0;
    while k < symptoms.len()
        invariant
            k <= symptoms.len(),
            alarming == exists|j: int| 0 <= j < k
                && (#[trigger] string_views(symptoms@)[j] == "riesgo seguridad"@
                || string_views(symptoms@)[j] == "sin internet"@),
        decreases symptoms.len() - k,
    {
        if str_eq(symptoms[k].as_str(), "riesgo seguridad") || str_eq(symptoms[k].as_str(), "sin internet") {
            assert(string_views(symptoms@)[k as int] == symptoms@[k as int]@);
            alarming = true;
        }
        k += 1;
    }
    if urgency == UrgencyLevel::High || alarming {
        return CriticalityLevel::High;
    }
    if (intent == IntentCategory::Maintenance || intent == IntentCategory::GeneralSupport)
        && symptoms.len() == 0 {
        return CriticalityLevel::Low;
    }
    CriticalityLevel::Medium
}

/// The recommended plan: validation first, then the steps of the intent, an
/// escalation step for high or critical cases, and a request for a concrete
/// symptom when none was found.
pub open spec fn plan_spec(intent: IntentCategory, criticality: CriticalityLevel, has_symptoms: bool) -> Seq<Seq<char>> {
    let base = seq!["Validar contexto operativo y permisos de ejecucion"@];
    let steps = match intent {
        IntentCategory::Network => seq!["Ejecutar ping/traceroute y validacion DNS"@,
            "Correlacionar gateway, DHCP y perdida de paquetes"@],
        IntentCategory::Drivers => seq!["Listar drivers con error y codigos de dispositivo"@,
            "Sugerir actualizacion o reinstalacion por fabricante"@],
        IntentCategory::Performance => seq!["Medir CPU/RAM/disco y procesos top"@,
            "Aplicar acciones de mantenimiento seguras"@],
        IntentCategory::Security => seq!["Ejecutar chequeo Defender y puertos activos"@,
            "Aislar procesos sospechosos y registrar evidencia"@],
        _ => seq!["Ejecutar diagnostico base del sistema"@],
    };
    let escalate = if criticality == CriticalityLevel::High || criticality == CriticalityLevel::Critical {
        seq!["Priorizar respuesta inmediata y reporte de riesgo"@]
    } else {
        Seq::<Seq<char>>::empty()
    };
    let ask = if !has_symptoms {
        seq!["Solicitar un sintoma concreto para elevar precision"@]
    } else {
        Seq::<Seq<char>>::empty()
    };
    base + steps + escalate + ask
}

fn push_step(plan: &mut Vec<String>, step: &str)
    ensures
        string_views(final(plan)@) == string_views(old(plan)@).push(step@),
{
    plan.push(owned(step));
    assert(string_views(plan@) =~= string_views(old(plan)@).push(step@));
}

/// Builds the recommended plan of a request.
pub fn decision_plan(intent: IntentCategory, criticality: CriticalityLevel, symptoms: &[String]) -> (res: Vec<String>)
    ensures
        string_views(res@) == plan_spec(intent, criticality, symptoms.len() > 0),
{
    let mut plan: Vec<String> = Vec::new();
    push_step(&mut plan, "Validar contexto operativo y permisos de ejecucion");
    match intent {
        IntentCategory::Network => {
            push_step(&mut plan, "Ejecutar ping/traceroute y validacion DNS");
            push_step(&mut plan, "Correlacionar gateway, DHCP y perdida de paquetes");
        },
        IntentCategory::Drivers => {
            push_step(&mut plan, "Listar drivers con error y codigos de dispositivo");
            push_step(&mut plan, "Sugerir actualizacion o reinstalacion por fabricante");
        },
        IntentCategory::Performance => {
            push_step(&mut plan, "Medir CPU/RAM/disco y procesos top");
            push_step(&mut plan, "Aplicar acciones de mantenimiento seguras");
        },
        IntentCategory::Security => {
            push_step(&mut plan, "Ejecutar chequeo Defender y puertos activos");
            push_step(&mut plan, "Aislar procesos sospechosos y registrar evidencia");
        },
        _ => {
            push_step(&mut plan, "Ejecutar diagnostico base del sistema");
        },
    }
    if criticality == CriticalityLevel::High || criticality == CriticalityLevel::Critical {
        push_step(&mut plan, "Priorizar respuesta inmediata y reporte de riesgo");
    }
    if symptoms.len() == 0 {
        push_step(&mut plan, "Solicitar un sintoma concreto para elevar precision");
    }
    assert(string_views(plan@) =~= plan_spec(intent, criticality, symptoms.len() > 0));
    plan
}


/// The operational reading of a message: everything the intent engine
/// derives from the text itself.
#[derive(Debug, Clone)]
pub struct OperationalAssessment {
    pub normalized_text: String,
    pub intent: IntentCategory,
    pub emotion: EmotionCategory,
    pub criticality: CriticalityLevel,
    pub urgency: UrgencyLevel,
    pub symptoms: Vec<String>,
    pub operational_tags: Vec<String>,
    pub recommended_plan: Vec<String>,
}

/// Reads a message in the context of the recent conversation: intent,
/// urgency, symptoms and criticality from the message with its context;
/// emotion from the message alone; tags and plan from those.
pub fn assess_message(user_message: &str, recent_context: &[String]) -> (res: OperationalAssessment)
    ensures
        res.normalized_text@ == intent_normalize_spec(user_message@),
        ({
            let all = context_text_spec(res.normalized_text@, string_views(recent_context@));
            &&& res.intent == intent_spec(all)
            &&& res.emotion == emotion_spec(res.normalized_text@)
            &&& res.urgency == urgency_spec(all)
            &&& string_views(res.symptoms@) == matching_labels(all, symptom_rules_spec())
            &&& string_views(res.operational_tags@) == tags_spec(res.intent, res.urgency, string_views(res.symptoms@))
            &&& res.criticality == criticality_spec(res.intent, res.urgency, string_views(res.symptoms@), all)
            &&& string_views(res.recommended_plan@) == plan_spec(res.intent, res.criticality, res.symptoms@.len() > 0)
        }),
        string_views(res.symptoms@).contains("riesgo seguridad"@) || string_views(res.symptoms@).contains("sin internet"@)
            ==> res.criticality == CriticalityLevel::High || res.criticality == CriticalityLevel::Critical,
        string_views(res.recommended_plan@).contains("Priorizar respuesta inmediata y reporte de riesgo"@)
            <==> (res.criticality == CriticalityLevel::High || res.criticality == CriticalityLevel::Critical),
        ({
            let all = context_text_spec(res.normalized_text@, string_views(recent_context@));
            seq_contains(all, "sin internet"@) || seq_contains(all, "no hay internet"@) || seq_contains(all, "internet malo"@)
                || seq_contains(all, "malware"@) || seq_contains(all, "virus"@) || seq_contains(all, "amenaza"@)
                || seq_contains(all, "intruso"@)
                ==> res.criticality == CriticalityLevel::High || res.criticality == CriticalityLevel::Critical
        }),
{
    let normalized = normalize_text(user_message);
    let all_text = build_context_text(normalized.as_str(), recent_context);
    let intent = classify_intent(all_text.as_str());
    let emotion = classify_emotion(normalized.as_str());
    let urgency = detect_urgency(all_text.as_str());
    let symptoms = detect_symptoms(all_text.as_str());
    let operational_tags = build_operational_tags(intent, urgency, symptoms.as_slice());
    let criticality = classify_criticality(intent, urgency, symptoms.as_slice(), all_text.as_str());
    let recommended_plan = decision_plan(intent, criticality, symptoms.as_slice());
    proof {
        lemma_plan_escalates_high_cases(intent, criticality, symptoms@.len() > 0);
        lemma_reading_rules(all_text@);
    }
    OperationalAssessment {
        normalized_text: normalized,
        intent,
        emotion,
        criticality,
        urgency,
        symptoms,
        operational_tags,
        recommended_plan,
    }
}


/// The names the intent, emotion, criticality and urgency are printed with.
pub open spec fn intent_printed(i: IntentCategory) -> Seq<char> {
    match i {
        IntentCategory::Network => "Network"@,
        IntentCategory::Performance => "Performance"@,
        IntentCategory::Security => "Security"@,
        IntentCategory::Maintenance => "Maintenance"@,
        IntentCategory::Drivers => "Drivers"@,
        IntentCategory::Files => "Files"@,
        IntentCategory::Services => "Services"@,
        IntentCategory::Updates => "Updates"@,
        IntentCategory::GeneralSupport => "GeneralSupport"@,
    }
}

pub open spec fn emotion_printed(e: EmotionCategory) -> Seq<char> {
    match e {
        EmotionCategory::Neutral => "Neutral"@,
        EmotionCategory::Frustrated => "Frustrated"@,
        EmotionCategory::Urgent => "Urgent"@,
        EmotionCategory::Confused => "Confused"@,
    }
}

pub open spec fn criticality_printed(c: CriticalityLevel) -> Seq<char> {
    match c {
        CriticalityLevel::Low => "Low"@,
        CriticalityLevel::Medium => "Medium"@,
        CriticalityLevel::High => "High"@,
        CriticalityLevel::Critical => "Critical"@,
    }
}

pub open spec fn urgency_printed(u: UrgencyLevel) -> Seq<char> {
    match u {
        UrgencyLevel::Low => "Low"@,
        UrgencyLevel::Normal => "Normal"@,
        UrgencyLevel::High => "High"@,
        UrgencyLevel::Immediate => "Immediate"@,
    }
}

fn intent_printed_str(i: IntentCategory) -> (r: &'static str)
    ensures
        r@ == intent_printed(i),
{
    match i {
        IntentCategory::Network => "Network",
        IntentCategory::Performance => "Performance",
        IntentCategory::Security => "Security",
        IntentCategory::Maintenance => "Maintenance",
        IntentCategory::Drivers => "Drivers",
        IntentCategory::Files => "Files",
        IntentCategory::Services => "Services",
        IntentCategory::Updates => "Updates",
        IntentCategory::GeneralSupport => "GeneralSupport",
    }
}

fn emotion_printed_str(e: EmotionCategory) -> (r: &'static str)
    ensures
        r@ == emotion_printed(e),
{
    match e {
        EmotionCategory::Neutral => "Neutral",
        EmotionCategory::Frustrated => "Frustrated",
        EmotionCategory::Urgent => "Urgent",
        EmotionCategory::Confused => "Confused",
    }
}

fn criticality_printed_str(c: CriticalityLevel) -> (r: &'static str)
    ensures
        r@ == criticality_printed(c),
{
    match c {
        CriticalityLevel::Low => "Low",
        CriticalityLevel::Medium => "Medium",
        CriticalityLevel::High => "High",
        CriticalityLevel::Critical => "Critical",
    }
}

fn urgency_printed_str(u: UrgencyLevel) -> (r: &'static str)
    ensures
        r@ == urgency_printed(u),
{
    match u {
        UrgencyLevel::Low => "Low",
        UrgencyLevel::Normal => "Normal",
        UrgencyLevel::High => "High",
        UrgencyLevel::Immediate => "Immediate",
    }
}

/// The operational section of the prompt; `hypotheses` is the list of
/// hypotheses with their confidence as printed.
pub open spec fn operational_context_spec(a: OperationalAssessment, hypotheses: Seq<char>) -> Seq<char> {
    "[KERNEL_INTENT]\nintent="@ + intent_printed(a.intent) + "\nemotion="@ + emotion_printed(a.emotion)
        + "\ncriticality="@ + criticality_printed(a.criticality) + "\nurgency="@ + urgency_printed(a.urgency)
        + "\nsymptoms="@ + join_seqs(string_views(a.symptoms@), ", "@)
        + "\ntags="@ + join_seqs(string_views(a.operational_tags@), ", "@)
        + "\nhypotheses="@ + hypotheses
        + "\nplan="@ + join_seqs(string_views(a.recommended_plan@), " | "@)
}

/// Writes the operational section of the prompt.
pub fn to_operational_context(a: &OperationalAssessment, hypotheses_text: &str) -> (r: String)
    ensures
        r@ == operational_context_spec(*a, hypotheses_text@),
{
    let mut out = String::from_str("[KERNEL_INTENT]\nintent=");
    out.append(intent_printed_str(a.intent));
    out.append("\nemotion=");
    out.append(emotion_printed_str(a.emotion));
    out.append("\ncriticality=");
    out.append(criticality_printed_str(a.criticality));
    out.append("\nurgency=");
    out.append(urgency_printed_str(a.urgency));
    out.append("\nsymptoms=");
    out.append(join_strings(&a.symptoms, ", ").as_str());
    out.append("\ntags=");
    out.append(join_strings(&a.operational_tags, ", ").as_str());
    out.append("\nhypotheses=");
    out.append(hypotheses_text);
    out.append("\nplan=");
    out.append(join_strings(&a.recommended_plan, " | ").as_str());
    out
}

/// A likely cause of a request, with its confidence in percent and why.
#[derive(Debug, Clone)]
pub struct Hypothesis {
    pub label: String,
    pub confidence_pct: u32,
    pub rationale: String,
}

/// A hypothesis as plain values.
pub open spec fn hypothesis_view(h: Hypothesis) -> (Seq<char>, u32, Seq<char>) {
    (h.label@, h.confidence_pct, h.rationale@)
}

/// The likely causes of a request, most likely first: for network requests
/// a DNS or gateway fault (more likely when the request is without
/// internet) and, when WiFi is named, an unstable wireless link; one cause
/// for drivers, performance and security; a guided basic diagnosis
/// otherwise.
pub open spec fn hypotheses_spec(intent: IntentCategory, symptoms: Seq<Seq<char>>, text: Seq<char>) -> Seq<(Seq<char>, u32, Seq<char>)> {
    match intent {
        IntentCategory::Network => {
            seq![("Problema DNS o gateway"@, if symptoms.contains("sin internet"@) { 82u32 } else { 64u32 },
                "Sintomas de conectividad apuntan a DNS/gateway"@)]
                + if contains_any_spec(text, seq!["wifi"@]) {
                    seq![("Inestabilidad WiFi"@, 58u32, "Solicitud menciona capa inalambrica"@)]
                } else {
                    Seq::empty()
                }
        },
        IntentCategory::Drivers => seq![("Controlador faltante o corrupto"@, 80u32, "Mencion directa de drivers/controladores"@)],
        IntentCategory::Performance => seq![("Saturacion de recursos"@, 76u32, "Indicadores de lentitud y consumo"@)],
        IntentCategory::Security => seq![("Incidente de seguridad activo"@, 74u32, "Terminos de amenaza o malware presentes"@)],
        _ => seq![("Se requiere diagnostico basico guiado"@, 55u32, "Consulta general con baja especificidad"@)],
    }
}

fn hypothesis(label: &str, confidence_pct: u32, rationale: &str) -> (h: Hypothesis)
    ensures
        hypothesis_view(h) == (label@, confidence_pct, rationale@),
{
    Hypothesis { label: owned(label), confidence_pct, rationale: owned(rationale) }
}

fn has_symptom(symptoms: &[String], label: &str) -> (r: bool)
    ensures
        r == string_views(symptoms@).contains(label@),
{
    let mut i: usize = 0;
    while i < symptoms.len()
        invariant
            i <= symptoms.len(),
            forall|k: int| 0 <= k < i ==> symptoms@[k]@ != label@,
        decreases symptoms.len() - i,
    {
        if str_eq(symptoms[i].as_str(), label) {
            assert(string_views(symptoms@)[i as int] == label@);
            return true;
        }
        i += 1;
    }
    proof {
        if string_views(symptoms@).contains(label@) {
            let k = choose|k: int| 0 <= k < string_views(symptoms@).len() && string_views(symptoms@)[k] == label@;
            assert(symptoms@[k]@ == label@);
        }
    }
    false
}

/// The likely causes of a request, most likely first.
pub fn build_hypotheses(intent: IntentCategory, symptoms: &[String], text: &str) -> (r: Vec<Hypothesis>)
    ensures
        r@.map_values(|h: Hypothesis| hypothesis_view(h)) == hypotheses_spec(intent, string_views(symptoms@), text@),
{
    let mut items: Vec<Hypothesis> = Vec::new();
    match intent {
        IntentCategory::Network => {
            let pct: u32 = if has_symptom(symptoms, "sin internet") { 82 } else { 64 };
            items.push(hypothesis("Problema DNS o gateway", pct, "Sintomas de conectividad apuntan a DNS/gateway"));
            let wifi: [&str; 1] = ["wifi"];
            assert(views_of(wifi@) =~= seq!["wifi"@]);
            if contains_any(text, &wifi) {
                items.push(hypothesis("Inestabilidad WiFi", 58, "Solicitud menciona capa inalambrica"));
            }
        },
        IntentCategory::Drivers => {
            items.push(hypothesis("Controlador faltante o corrupto", 80, "Mencion directa de drivers/controladores"));
        },
        IntentCategory::Performance => {
            items.push(hypothesis("Saturacion de recursos", 76, "Indicadores de lentitud y consumo"));
        },
        IntentCategory::Security => {
            items.push(hypothesis("Incidente de seguridad activo", 74, "Terminos de amenaza o malware presentes"));
        },
        _ => {
            items.push(hypothesis("Se requiere diagnostico basico guiado", 55, "Consulta general con baja especificidad"));
        },
    }
    assert(items@.map_values(|h: Hypothesis| hypothesis_view(h)) =~= hypotheses_spec(intent, string_views(symptoms@), text@));
    items
}

/// How a hypothesis is listed: its label and its confidence in percent.
pub open spec fn hypothesis_printed(h: (Seq<char>, u32, Seq<char>)) -> Seq<char> {
    h.0 + " ("@ + decimal(h.1 as nat) + "%)"@
}

/// The hypotheses as listed in the operational context, separated by
/// commas.
pub fn hypotheses_text(hs: &Vec<Hypothesis>) -> (r: String)
    ensures
        r@ == join_seqs(hs@.map_values(|h: Hypothesis| hypothesis_printed(hypothesis_view(h))), ", "@),
{
    let mut parts: Vec<String> = Vec::new();
    let mut i: usize = 0;
    while i < hs.len()
        invariant
            i <= hs.len(),
            string_views(parts@) == hs@.take(i as int).map_values(|h: Hypothesis| hypothesis_printed(hypothesis_view(h))),
        decreases hs.len() - i,
    {
        let mut p = hs[i].label.clone();
        p.append(" (");
        let d = decimal_string(hs[i].confidence_pct as usize);
        p.append(d.as_str());
        p.append("%)");
        let ghost before = parts@;
        parts.push(p);
        assert(string_views(parts@) =~= string_views(before).push(p@));
        assert(hs@.take(i as int + 1).map_values(|h: Hypothesis| hypothesis_printed(hypothesis_view(h)))
            =~= hs@.take(i as int).map_values(|h: Hypothesis| hypothesis_printed(hypothesis_view(h))).push(hypothesis_printed(hypothesis_view(hs@[i as int]))));
        i += 1;
    }
    assert(hs@.take(hs.len() as int) =~= hs@);
    join_strings(&parts, ", ")
}


// ---------------------------------------------------------------------------
// Laws of the assessment
// ---------------------------------------------------------------------------

/// Criticality: a case is critical exactly for immediate urgency or
/// production-stopping wording; otherwise high urgency, a security-risk
/// symptom or a no-internet symptom makes it high.
pub proof fn lemma_criticality_levels(intent: IntentCategory, urgency: UrgencyLevel, symptoms: Seq<Seq<char>>, text: Seq<char>)
    ensures
        criticality_spec(intent, urgency, symptoms, text) == CriticalityLevel::Critical <==> (urgency == UrgencyLevel::Immediate
            || seq_contains(text, "produccion"@) || seq_contains(text, "empresa detenida"@) || seq_contains(text, "no arranca"@)),
        (symptoms.contains("riesgo seguridad"@) || symptoms.contains("sin internet"@) || urgency == UrgencyLevel::High)
            && criticality_spec(intent, urgency, symptoms, text) != CriticalityLevel::Critical
            ==> criticality_spec(intent, urgency, symptoms, text) == CriticalityLevel::High,
        criticality_spec(intent, urgency, symptoms, text) == CriticalityLevel::High
            ==> symptoms.contains("riesgo seguridad"@) || symptoms.contains("sin internet"@) || urgency == UrgencyLevel::High,
        criticality_spec(intent, urgency, symptoms, text) == CriticalityLevel::Low <==> (
            criticality_spec(intent, urgency, symptoms, text) != CriticalityLevel::Critical
            && criticality_spec(intent, urgency, symptoms, text) != CriticalityLevel::High
            && (intent == IntentCategory::Maintenance || intent == IntentCategory::GeneralSupport) && symptoms.len() == 0),
{
    let stop = seq!["produccion"@, "empresa detenida"@, "no arranca"@];
    if contains_any_spec(text, stop) {
        let k = choose|k: int| 0 <= k < stop.len() && #[trigger] seq_contains(text, stop[k]);
    }
    if seq_contains(text, "produccion"@) { assert(seq_contains(text, stop[0])); }
    if seq_contains(text, "empresa detenida"@) { assert(seq_contains(text, stop[1])); }
    if seq_contains(text, "no arranca"@) { assert(seq_contains(text, stop[2])); }
    if symptoms.contains("riesgo seguridad"@) {
        let k = choose|k: int| 0 <= k < symptoms.len() && symptoms[k] == "riesgo seguridad"@;
        assert(symptoms[k] == "riesgo seguridad"@);
    }
    if symptoms.contains("sin internet"@) {
        let k = choose|k: int| 0 <= k < symptoms.len() && symptoms[k] == "sin internet"@;
        assert(symptoms[k] == "sin internet"@);
    }
    if has_alarming_symptom(symptoms) {
        let k = choose|k: int| 0 <= k < symptoms.len()
            && (#[trigger] symptoms[k] == "riesgo seguridad"@ || symptoms[k] == "sin internet"@);
        assert(symptoms.contains(symptoms[k]));
    }
}

/// The plan of a case starts by validating the operating context, and asks
/// for an immediate response and a risk report exactly when the case is
/// high or critical.
pub proof fn lemma_plan_escalates_high_cases(intent: IntentCategory, criticality: CriticalityLevel, has_symptoms: bool)
    ensures
        plan_spec(intent, criticality, has_symptoms)[0] == "Validar contexto operativo y permisos de ejecucion"@,
        plan_spec(intent, criticality, has_symptoms).contains("Priorizar respuesta inmediata y reporte de riesgo"@)
            <==> (criticality == CriticalityLevel::High || criticality == CriticalityLevel::Critical),
{
    reveal_strlit("Priorizar respuesta inmediata y reporte de riesgo");
    reveal_strlit("Validar contexto operativo y permisos de ejecucion");
    reveal_strlit("Ejecutar ping/traceroute y validacion DNS");
    reveal_strlit("Correlacionar gateway, DHCP y perdida de paquetes");
    reveal_strlit("Listar drivers con error y codigos de dispositivo");
    reveal_strlit("Sugerir actualizacion o reinstalacion por fabricante");
    reveal_strlit("Medir CPU/RAM/disco y procesos top");
    reveal_strlit("Aplicar acciones de mantenimiento seguras");
    reveal_strlit("Ejecutar chequeo Defender y puertos activos");
    reveal_strlit("Aislar procesos sospechosos y registrar evidencia");
    reveal_strlit("Ejecutar diagnostico base del sistema");
    reveal_strlit("Solicitar un sintoma concreto para elevar precision");
    assert("Priorizar respuesta inmediata y reporte de riesgo"@[0] == 'P');
    assert("Validar contexto operativo y permisos de ejecucion"@[0] == 'V');
    assert("Ejecutar ping/traceroute y validacion DNS"@[0] == 'E');
    assert("Correlacionar gateway, DHCP y perdida de paquetes"@[0] == 'C');
    assert("Listar drivers con error y codigos de dispositivo"@[0] == 'L');
    assert("Sugerir actualizacion o reinstalacion por fabricante"@[0] == 'S');
    assert("Medir CPU/RAM/disco y procesos top"@[0] == 'M');
    assert("Aplicar acciones de mantenimiento seguras"@[0] == 'A');
    assert("Ejecutar chequeo Defender y puertos activos"@[0] == 'E');
    assert("Aislar procesos sospechosos y registrar evidencia"@[0] == 'A');
    assert("Ejecutar diagnostico base del sistema"@[0] == 'E');
    assert("Solicitar un sintoma concreto para elevar precision"@[0] == 'S');
    let p = plan_spec(intent, criticality, has_symptoms);
    let esc = "Priorizar respuesta inmediata y reporte de riesgo"@;
    if criticality == CriticalityLevel::High || criticality == CriticalityLevel::Critical {
        let n = p.len() - if has_symptoms { 1int } else { 2int };
        assert(p[n] == esc);
    } else {
        assert forall|i: int| 0 <= i < p.len() implies p[i] != esc by {
            assert(p[i][0] != 'P');
        }
    }
}


/// The reading of a request: it is about networking when it mentions DNS,
/// Wi-Fi, the internet, the network, a gateway, latency or ping; its urgency
/// is immediate for production-stopping wording and high for urgent,
/// same-day, blocked, no-internet or unresponsive wording; a no-internet
/// phrase yields the `sin internet` symptom and malware wording the
/// `riesgo seguridad` symptom, so either makes the case at least high.
pub proof fn lemma_reading_rules(text: Seq<char>)
    ensures
        contains_any_spec(text, seq!["dns"@, "wifi"@, "internet"@, "red"@, "gateway"@, "latencia"@, "ping"@])
            ==> intent_spec(text) == IntentCategory::Network,
        intent_spec(text) == IntentCategory::Network
            ==> contains_any_spec(text, seq!["dns"@, "wifi"@, "internet"@, "red"@, "gateway"@, "latencia"@, "ping"@]),
        contains_any_spec(text, seq!["caido"@, "produccion"@, "critico"@, "no arranca"@, "no puedo trabajar"@, "inmediato"@])
            <==> urgency_spec(text) == UrgencyLevel::Immediate,
        contains_any_spec(text, seq!["urgente"@, "hoy"@, "bloqueado"@, "sin internet"@, "no responde"@])
            ==> urgency_spec(text) == UrgencyLevel::Immediate || urgency_spec(text) == UrgencyLevel::High,
        seq_contains(text, "sin internet"@) || seq_contains(text, "no hay internet"@) || seq_contains(text, "internet malo"@)
            ==> matching_labels(text, symptom_rules_spec()).contains("sin internet"@),
        seq_contains(text, "malware"@) || seq_contains(text, "virus"@) || seq_contains(text, "amenaza"@) || seq_contains(text, "intruso"@)
            ==> matching_labels(text, symptom_rules_spec()).contains("riesgo seguridad"@),
        (seq_contains(text, "sin internet"@) || seq_contains(text, "no hay internet"@) || seq_contains(text, "internet malo"@)
            || seq_contains(text, "malware"@) || seq_contains(text, "virus"@) || seq_contains(text, "amenaza"@)
            || seq_contains(text, "intruso"@)) ==> ({
                let c = criticality_spec(intent_spec(text), urgency_spec(text), matching_labels(text, symptom_rules_spec()), text);
                c == CriticalityLevel::High || c == CriticalityLevel::Critical
            }),
{
    let rules = symptom_rules_spec();
    crate::rules::lemma_matching_labels(text, rules);
    let a0 = rules[0].1;
    let a7 = rules[7].1;
    if seq_contains(text, "sin internet"@) { assert(seq_contains(text, a0[0])); }
    if seq_contains(text, "no hay internet"@) { assert(seq_contains(text, a0[1])); }
    if seq_contains(text, "internet malo"@) { assert(seq_contains(text, a0[2])); }
    if seq_contains(text, "malware"@) { assert(seq_contains(text, a7[0])); }
    if seq_contains(text, "virus"@) { assert(seq_contains(text, a7[1])); }
    if seq_contains(text, "amenaza"@) { assert(seq_contains(text, a7[2])); }
    if seq_contains(text, "intruso"@) { assert(seq_contains(text, a7[3])); }
    if contains_any_spec(text, a0) {
        assert(contains_any_spec(text, rules[0].1));
        assert(rules[0].0 == "sin internet"@);
    }
    if contains_any_spec(text, a7) {
        assert(contains_any_spec(text, rules[7].1));
        assert(rules[7].0 == "riesgo seguridad"@);
    }
    lemma_criticality_levels(intent_spec(text), urgency_spec(text), matching_labels(text, rules), text);
}

} // verus!
