//! Query analysis: normalizes a user query and derives its category,
//! specialty, symptoms, entities, urgency and ambiguity.

use vstd::prelude::*;
use crate::models::{DomainSpecialty, QueryAnalysis, QueryCategory};
use crate::rules::{
    count_hits, count_keyword_hits, keyed_views, labels_for, matching_labels, rule_views,
};
use crate::text::{
    ascii_lower, chars_of, collapse_whitespace, collapse_ws, is_ascii_alnum, is_ascii_alphanumeric,
    is_ascii_whitespace, is_ascii_ws, is_whitespace, is_ws, string_from_chars, string_views,
    to_ascii_lowercase, contains, contains_any, contains_any_spec, owned, seq_contains, views_of,
    lowercase_chars, lowercase_of, str_eq,
};

verus! {

// ---------------------------------------------------------------------------
// Normalization
// ---------------------------------------------------------------------------

/// Folds accented Spanish vowels (either case) and `ñ` to their ASCII base,
/// and lowercases ASCII letters.
pub open spec fn fold_char(c: char) -> char {
    if c == 'á' || c == 'à' || c == 'ä' || c == 'â' || c == 'Á' || c == 'À' || c == 'Ä' || c == 'Â' {
        'a'
    } else if c == 'é' || c == 'è' || c == 'ë' || c == 'ê' || c == 'É' || c == 'È' || c == 'Ë' || c == 'Ê' {
        'e'
    } else if c == 'í' || c == 'ì' || c == 'ï' || c == 'î' || c == 'Í' || c == 'Ì' || c == 'Ï' || c == 'Î' {
        'i'
    } else if c == 'ó' || c == 'ò' || c == 'ö' || c == 'ô' || c == 'Ó' || c == 'Ò' || c == 'Ö' || c == 'Ô' {
        'o'
    } else if c == 'ú' || c == 'ù' || c == 'ü' || c == 'û' || c == 'Ú' || c == 'Ù' || c == 'Ü' || c == 'Û' {
        'u'
    } else if c == 'ñ' || c == 'Ñ' {
        'n'
    } else {
        ascii_lower(c)
    }
}

/// A folded character survives when it is an ASCII letter, digit or
/// whitespace; anything else becomes a space.
pub open spec fn query_char(c: char) -> char {
    let m = fold_char(c);
    if is_ascii_alnum(m) || is_ascii_ws(m) { m } else { ' ' }
}

/// The normalized form of a query: folded, filtered, whitespace collapsed.
pub open spec fn normalize_spec(s: Seq<char>) -> Seq<char> {
    collapse_ws(s.map_values(|c: char| query_char(c)))
}

fn fold(c: char) -> (r: char)
    ensures
        r == fold_char(c),
{
    if c == 'á' || c == 'à' || c == 'ä' || c == 'â' || c == 'Á' || c == 'À' || c == 'Ä' || c == 'Â' {
        'a'
    } else if c == 'é' || c == 'è' || c == 'ë' || c == 'ê' || c == 'É' || c == 'È' || c == 'Ë' || c == 'Ê' {
        'e'
    } else if c == 'í' || c == 'ì' || c == 'ï' || c == 'î' || c == 'Í' || c == 'Ì' || c == 'Ï' || c == 'Î' {
        'i'
    } else if c == 'ó' || c == 'ò' || c == 'ö' || c == 'ô' || c == 'Ó' || c == 'Ò' || c == 'Ö' || c == 'Ô' {
        'o'
    } else if c == 'ú' || c == 'ù' || c == 'ü' || c == 'û' || c == 'Ú' || c == 'Ù' || c == 'Ü' || c == 'Û' {
        'u'
    } else if c == 'ñ' || c == 'Ñ' {
        'n'
    } else {
        to_ascii_lowercase(c)
    }
}

/// Normalizes a query: accent folding, ASCII lowercase, every other symbol
/// turned into a space, whitespace collapsed.
pub fn normalize_text(input: &str) -> (res: String)
    ensures
        res@ == normalize_spec(input@),
{
    let cs = chars_of(input);
    let mut mapped: Vec<char> = Vec::new();
    let mut i: usize = 0;
    while i < cs.len()
        invariant
            i <= cs.len(),
            cs@ == input@,
            mapped@ == cs@.take(i as int).map_values(|c: char| query_char(c)),
        decreases cs.len() - i,
    {
        let m = fold(cs[i]);
        let out = if is_ascii_alphanumeric(m) || is_ascii_whitespace(m) { m } else { ' ' };
        mapped.push(out);
        assert(cs@.take(i as int + 1).map_values(|c: char| query_char(c))
            =~= cs@.take(i as int).map_values(|c: char| query_char(c)).push(query_char(cs@[i as int])));
        i += 1;
    }
    assert(cs@.take(cs.len() as int) =~= cs@);
    let collapsed = collapse_whitespace(&mapped);
    string_from_chars(&collapsed)
}

// ---------------------------------------------------------------------------
// Tokens
// ---------------------------------------------------------------------------

/// Word splitting state after a prefix: finished words and the word in progress.
pub open spec fn words_step(acc: (Seq<Seq<char>>, Seq<char>), c: char) -> (Seq<Seq<char>>, Seq<char>) {
    if is_ws(c) {
        if acc.1.len() > 0 { (acc.0.push(acc.1), Seq::<char>::empty()) } else { acc }
    } else {
        (acc.0, acc.1.push(c))
    }
}

pub open spec fn words_prefix(s: Seq<char>, n: nat) -> (Seq<Seq<char>>, Seq<char>)
    decreases n,
{
    if n == 0 {
        (Seq::<Seq<char>>::empty(), Seq::<char>::empty())
    } else {
        words_step(words_prefix(s, (n - 1) as nat), s[n - 1])
    }
}

/// The maximal runs of non-whitespace characters of `s`, in order
/// (`str::split_whitespace`).
pub open spec fn words(s: Seq<char>) -> Seq<Seq<char>> {
    let acc = words_prefix(s, s.len());
    if acc.1.len() > 0 { acc.0.push(acc.1) } else { acc.0 }
}

/// Splits a normalized query into its words.
pub fn tokenize(normalized_text: &str) -> (res: Vec<String>)
    ensures
        string_views(res@) == words(normalized_text@),
{
    let cs = chars_of(normalized_text);
    let mut done: Vec<String> = Vec::new();
    let mut cur: Vec<char> = Vec::new();
    let mut i: usize = 0;
    while i < cs.len()
        invariant
            i <= cs.len(),
            cs@ == normalized_text@,
            (string_views(done@), cur@) == words_prefix(cs@, i as nat),
        decreases cs.len() - i,
    {
        let c = cs[i];
        if is_whitespace(c) {
            if cur.len() > 0 {
                let w = string_from_chars(&cur);
                done.push(w);
                assert(string_views(done@) =~= words_prefix(cs@, i as nat).0.push(cur@));
                cur = Vec::new();
            }
        } else {
            cur.push(c);
        }
        i += 1;
    }
    if cur.len() > 0 {
        let w = string_from_chars(&cur);
        done.push(w);
        assert(string_views(done@) =~= words_prefix(cs@, cs.len() as nat).0.push(cur@));
    }
    done
}

} // verus!

verus! {

// ---------------------------------------------------------------------------
// Rule tables
// ---------------------------------------------------------------------------

/// Symptom labels and the phrases that reveal them.
pub open spec fn symptom_rules_spec() -> Seq<(Seq<char>, Seq<Seq<char>>)> {
    seq![
        ("dns_failure"@, seq!["dns"@, "nslookup"@, "no resuelve"@, "resolucion"@]),
        ("network_down"@, seq!["sin internet"@, "no hay internet"@, "sin red"@, "wifi caido"@]),
        ("high_latency"@, seq!["latencia"@, "ping alto"@, "ping lento"@]),
        ("print_failure"@, seq!["no imprime"@, "spooler"@, "impresora"@, "cola de impresion"@]),
        ("driver_code_43"@, seq!["codigo 43"@, "code 43"@]),
        ("disk_100"@, seq!["disco al 100"@, "100 de disco"@, "disco saturado"@]),
        ("high_cpu"@, seq!["cpu al 100"@, "alto consumo de cpu"@]),
        ("slow_system"@, seq!["muy lento"@, "equipo lento"@, "se congela"@, "congelado"@]),
        ("update_failure"@, seq!["windows update"@, "no actualiza"@, "fallo actualizacion"@]),
        ("security_risk"@, seq!["malware"@, "virus"@, "intruso"@, "amenaza"@]),
    ]
}

fn symptom_rules() -> (res: Vec<(&'static str, Vec<&'static str>)>)
    ensures
        rule_views(res@) == symptom_rules_spec(),
{
    let res = vec![
        ("dns_failure", vec!["dns", "nslookup", "no resuelve", "resolucion"]),
        ("network_down", vec!["sin internet", "no hay internet", "sin red", "wifi caido"]),
        ("high_latency", vec!["latencia", "ping alto", "ping lento"]),
        ("print_failure", vec!["no imprime", "spooler", "impresora", "cola de impresion"]),
        ("driver_code_43", vec!["codigo 43", "code 43"]),
        ("disk_100", vec!["disco al 100", "100 de disco", "disco saturado"]),
        ("high_cpu", vec!["cpu al 100", "alto consumo de cpu"]),
        ("slow_system", vec!["muy lento", "equipo lento", "se congela", "congelado"]),
        ("update_failure", vec!["windows update", "no actualiza", "fallo actualizacion"]),
        ("security_risk", vec!["malware", "virus", "intruso", "amenaza"]),
    ];
    assert(res@.len() == 10);
    assert(views_of(res@[0].1@) =~= seq!["dns"@, "nslookup"@, "no resuelve"@, "resolucion"@]);
    assert(views_of(res@[1].1@) =~= seq!["sin internet"@, "no hay internet"@, "sin red"@, "wifi caido"@]);
    assert(views_of(res@[2].1@) =~= seq!["latencia"@, "ping alto"@, "ping lento"@]);
    assert(views_of(res@[3].1@) =~= seq!["no imprime"@, "spooler"@, "impresora"@, "cola de impresion"@]);
    assert(views_of(res@[4].1@) =~= seq!["codigo 43"@, "code 43"@]);
    assert(views_of(res@[5].1@) =~= seq!["disco al 100"@, "100 de disco"@, "disco saturado"@]);
    assert(views_of(res@[6].1@) =~= seq!["cpu al 100"@, "alto consumo de cpu"@]);
    assert(views_of(res@[7].1@) =~= seq!["muy lento"@, "equipo lento"@, "se congela"@, "congelado"@]);
    assert(views_of(res@[8].1@) =~= seq!["windows update"@, "no actualiza"@, "fallo actualizacion"@]);
    assert(views_of(res@[9].1@) =~= seq!["malware"@, "virus"@, "intruso"@, "amenaza"@]);
    assert(rule_views(res@) =~= symptom_rules_spec());
    res
}

/// The symptom labels whose phrases occur in the normalized text.
pub fn detect_symptoms(text: &str) -> (res: Vec<String>)
    ensures
        string_views(res@) == matching_labels(text@, symptom_rules_spec()),
{
    let t = chars_of(text);
    let rules = symptom_rules();
    labels_for(&t, &rules)
}

} // verus!

verus! {

/// Entity labels and the words that name them.
pub open spec fn entity_rules_spec() -> Seq<(Seq<char>, Seq<Seq<char>>)> {
    seq![
        ("dns"@, seq!["dns"@, "nslookup"@]),
        ("spooler"@, seq!["spooler"@, "print spooler"@, "cola de impresion"@]),
        ("gpu"@, seq!["gpu"@, "tarjeta grafica"@, "video"@]),
        ("disk"@, seq!["disco"@, "ssd"@, "hdd"@]),
        ("desktop"@, seq!["escritorio"@, "desktop"@]),
        ("file_inventory"@, seq!["archivo"@, "archivos"@]),
        ("firewall"@, seq!["firewall"@]),
        ("defender"@, seq!["defender"@]),
        ("windows_update"@, seq!["windows update"@, "actualizacion"@, "actualizaciones"@, "update"@, "winget"@]),
        ("sfc"@, seq!["sfc"@]),
        ("dism"@, seq!["dism"@]),
    ]
}

fn entity_rules() -> (res: Vec<(&'static str, Vec<&'static str>)>)
    ensures
        rule_views(res@) == entity_rules_spec(),
{
    let res = vec![
        ("dns", vec!["dns", "nslookup"]),
        ("spooler", vec!["spooler", "print spooler", "cola de impresion"]),
        ("gpu", vec!["gpu", "tarjeta grafica", "video"]),
        ("disk", vec!["disco", "ssd", "hdd"]),
        ("desktop", vec!["escritorio", "desktop"]),
        ("file_inventory", vec!["archivo", "archivos"]),
        ("firewall", vec!["firewall"]),
        ("defender", vec!["defender"]),
        ("windows_update", vec!["windows update", "actualizacion", "actualizaciones", "update", "winget"]),
        ("sfc", vec!["sfc"]),
        ("dism", vec!["dism"]),
    ];
    assert(res@.len() == 11);
    assert(views_of(res@[0].1@) =~= seq!["dns"@, "nslookup"@]);
    assert(views_of(res@[1].1@) =~= seq!["spooler"@, "print spooler"@, "cola de impresion"@]);
    assert(views_of(res@[2].1@) =~= seq!["gpu"@, "tarjeta grafica"@, "video"@]);
    assert(views_of(res@[3].1@) =~= seq!["disco"@, "ssd"@, "hdd"@]);
    assert(views_of(res@[4].1@) =~= seq!["escritorio"@, "desktop"@]);
    assert(views_of(res@[5].1@) =~= seq!["archivo"@, "archivos"@]);
    assert(views_of(res@[6].1@) =~= seq!["firewall"@]);
    assert(views_of(res@[7].1@) =~= seq!["defender"@]);
    assert(views_of(res@[8].1@) =~= seq!["windows update"@, "actualizacion"@, "actualizaciones"@, "update"@, "winget"@]);
    assert(views_of(res@[9].1@) =~= seq!["sfc"@]);
    assert(views_of(res@[10].1@) =~= seq!["dism"@]);
    assert(rule_views(res@) =~= entity_rules_spec());
    res
}

/// The entity labels whose words occur in the normalized text.
pub fn detect_entities(text: &str) -> (res: Vec<String>)
    ensures
        string_views(res@) == matching_labels(text@, entity_rules_spec()),
{
    let t = chars_of(text);
    let rules = entity_rules();
    labels_for(&t, &rules)
}

// ---------------------------------------------------------------------------
// Specialty scoring
// ---------------------------------------------------------------------------

/// The best-scoring specialty among the first rules, and its score; a later
/// rule wins only with a strictly higher score, and a score of zero keeps
/// `Unknown`.
pub open spec fn best_specialty(text: Seq<char>, rules: Seq<(DomainSpecialty, Seq<Seq<char>>)>) -> (DomainSpecialty, nat)
    decreases rules.len(),
{
    if rules.len() == 0 {
        (DomainSpecialty::Unknown, 0nat)
    } else {
        let prev = best_specialty(text, rules.drop_last());
        let score = count_hits(text, rules.last().1);
        if score > prev.1 { (rules.last().0, score) } else { prev }
    }
}

/// Keywords of each specialty, in priority order.
pub open spec fn specialty_rules_spec() -> Seq<(DomainSpecialty, Seq<Seq<char>>)> {
    seq![
        (DomainSpecialty::Network, seq!["dns"@, "ipconfig"@, "ping"@, "gateway"@, "ethernet"@, "wifi"@, "internet"@, "adaptador de red"@, "latencia"@, "red"@, "nslookup"@]),
        (DomainSpecialty::Services, seq!["spooler"@, "servicio"@, "services"@, "service"@, "print spooler"@, "detenido"@, "no imprime"@]),
        (DomainSpecialty::Drivers, seq!["driver"@, "controlador"@, "codigo 43"@, "code 43"@, "gpu"@, "audio"@, "usb"@, "pantalla"@, "dispositivo"@]),
        (DomainSpecialty::Performance, seq!["disco al 100"@, "100 de disco"@, "cpu al 100"@, "ram alta"@, "lento"@, "rendimiento"@, "congelado"@, "latencia del sistema"@, "alto consumo"@]),
        (DomainSpecialty::Security, seq!["defender"@, "firewall"@, "malware"@, "virus"@, "intruso"@, "seguridad"@, "amenaza"@, "ransomware"@]),
        (DomainSpecialty::Maintenance, seq!["sfc"@, "dism"@, "mantenimiento"@, "reparacion"@, "integridad"@, "temporales"@, "limpieza"@]),
        (DomainSpecialty::Filesystem, seq!["archivo"@, "carpeta"@, "escritorio"@, "disco c"@, "permisos"@, "ruta"@, "explorador"@, "filesystem"@]),
        (DomainSpecialty::Software, seq!["instalar"@, "desinstalar"@, "programa"@, "aplicacion"@, "actualizacion"@, "actualizaciones"@, "windows feature"@, "feature"@, "winget"@, "update"@, "software"@]),
        (DomainSpecialty::Processes, seq!["proceso"@, "tasklist"@, "task manager"@, "consumo de cpu"@, "proceso colgado"@, "process"@]),
        (DomainSpecialty::System, seq!["windows"@, "arranque"@, "inicio"@, "kernel"@, "sistema"@, "equipo"@]),
        (DomainSpecialty::SensitiveOps, seq!["formatea"@, "borrar system32"@, "desactivar defender"@, "deshabilitar firewall"@, "regedit"@, "registro"@]),
    ]
}

fn specialty_rules() -> (res: Vec<(DomainSpecialty, Vec<&'static str>)>)
    ensures
        keyed_views(res@) == specialty_rules_spec(),
{
    let res = vec![
        (DomainSpecialty::Network, vec!["dns", "ipconfig", "ping", "gateway", "ethernet", "wifi", "internet", "adaptador de red", "latencia", "red", "nslookup"]),
        (DomainSpecialty::Services, vec!["spooler", "servicio", "services", "service", "print spooler", "detenido", "no imprime"]),
        (DomainSpecialty::Drivers, vec!["driver", "controlador", "codigo 43", "code 43", "gpu", "audio", "usb", "pantalla", "dispositivo"]),
        (DomainSpecialty::Performance, vec!["disco al 100", "100 de disco", "cpu al 100", "ram alta", "lento", "rendimiento", "congelado", "latencia del sistema", "alto consumo"]),
        (DomainSpecialty::Security, vec!["defender", "firewall", "malware", "virus", "intruso", "seguridad", "amenaza", "ransomware"]),
        (DomainSpecialty::Maintenance, vec!["sfc", "dism", "mantenimiento", "reparacion", "integridad", "temporales", "limpieza"]),
        (DomainSpecialty::Filesystem, vec!["archivo", "carpeta", "escritorio", "disco c", "permisos", "ruta", "explorador", "filesystem"]),
        (DomainSpecialty::Software, vec!["instalar", "desinstalar", "programa", "aplicacion", "actualizacion", "actualizaciones", "windows feature", "feature", "winget", "update", "software"]),
        (DomainSpecialty::Processes, vec!["proceso", "tasklist", "task manager", "consumo de cpu", "proceso colgado", "process"]),
        (DomainSpecialty::System, vec!["windows", "arranque", "inicio", "kernel", "sistema", "equipo"]),
        (DomainSpecialty::SensitiveOps, vec!["formatea", "borrar system32", "desactivar defender", "deshabilitar firewall", "regedit", "registro"]),
    ];
    assert(res@.len() == 11);
    assert(views_of(res@[0].1@) =~= seq!["dns"@, "ipconfig"@, "ping"@, "gateway"@, "ethernet"@, "wifi"@, "internet"@, "adaptador de red"@, "latencia"@, "red"@, "nslookup"@]);
    assert(views_of(res@[1].1@) =~= seq!["spooler"@, "servicio"@, "services"@, "service"@, "print spooler"@, "detenido"@, "no imprime"@]);
    assert(views_of(res@[2].1@) =~= seq!["driver"@, "controlador"@, "codigo 43"@, "code 43"@, "gpu"@, "audio"@, "usb"@, "pantalla"@, "dispositivo"@]);
    assert(views_of(res@[3].1@) =~= seq!["disco al 100"@, "100 de disco"@, "cpu al 100"@, "ram alta"@, "lento"@, "rendimiento"@, "congelado"@, "latencia del sistema"@, "alto consumo"@]);
    assert(views_of(res@[4].1@) =~= seq!["defender"@, "firewall"@, "malware"@, "virus"@, "intruso"@, "seguridad"@, "amenaza"@, "ransomware"@]);
    assert(views_of(res@[5].1@) =~= seq!["sfc"@, "dism"@, "mantenimiento"@, "reparacion"@, "integridad"@, "temporales"@, "limpieza"@]);
    assert(views_of(res@[6].1@) =~= seq!["archivo"@, "carpeta"@, "escritorio"@, "disco c"@, "permisos"@, "ruta"@, "explorador"@, "filesystem"@]);
    assert(views_of(res@[7].1@) =~= seq!["instalar"@, "desinstalar"@, "programa"@, "aplicacion"@, "actualizacion"@, "actualizaciones"@, "windows feature"@, "feature"@, "winget"@, "update"@, "software"@]);
    assert(views_of(res@[8].1@) =~= seq!["proceso"@, "tasklist"@, "task manager"@, "consumo de cpu"@, "proceso colgado"@, "process"@]);
    assert(views_of(res@[9].1@) =~= seq!["windows"@, "arranque"@, "inicio"@, "kernel"@, "sistema"@, "equipo"@]);
    assert(views_of(res@[10].1@) =~= seq!["formatea"@, "borrar system32"@, "desactivar defender"@, "deshabilitar firewall"@, "regedit"@, "registro"@]);
    assert(keyed_views(res@) =~= specialty_rules_spec());
    res
}

/// The specialty whose keywords occur most often in the normalized text;
/// ties go to the earlier specialty, and no hit at all gives `Unknown`.
pub fn detect_specialty(text: &str) -> (res: DomainSpecialty)
    ensures
        res == best_specialty(text@, specialty_rules_spec()).0,
{
    let t = chars_of(text);
    let rules = specialty_rules();
    let mut best = DomainSpecialty::Unknown;
    let mut best_score: usize = 0;
    let mut k: usize = 0;
    while k < rules.len()
        invariant
            k <= rules.len(),
            t@ == text@,
            keyed_views(rules@) == specialty_rules_spec(),
            (best, best_score as nat) == best_specialty(t@, keyed_views(rules@).take(k as int)),
        decreases rules.len() - k,
    {
        assert(keyed_views(rules@).take(k as int + 1).drop_last() =~= keyed_views(rules@).take(k as int));
        let score = count_keyword_hits(&t, &rules[k].1);
        if score > best_score {
            best = rules[k].0;
            best_score = score;
        }
        k += 1;
    }
    assert(keyed_views(rules@).take(rules.len() as int) =~= keyed_views(rules@));
    best
}

} // verus!

verus! {

// ---------------------------------------------------------------------------
// Category, ambiguity, urgency
// ---------------------------------------------------------------------------

pub open spec fn unsafe_terms() -> Seq<Seq<char>> {
    seq!["formatea"@, "borra"@, "elimina"@, "desactiva defender"@, "deshabilita firewall"@,
        "mata el proceso"@, "borra system32"@]
}

pub open spec fn failure_terms() -> Seq<Seq<char>> {
    seq!["no funciona"@, "falla"@, "error"@, "problema"@]
}

pub open spec fn action_terms() -> Seq<Seq<char>> {
    seq!["revisa"@, "diagnostica"@, "ejecuta"@, "reinicia"@, "repara"@, "arregla"@, "soluciona"@]
}

pub open spec fn help_terms() -> Seq<Seq<char>> {
    seq!["no funciona"@, "ayuda"@, "error"@, "problema"@]
}

pub open spec fn urgent_terms() -> Seq<Seq<char>> {
    seq!["critico"@, "crítico"@, "urgente"@, "caido"@, "caído"@, "produccion"@, "producción"@]
}

/// The category of a query, by the first rule that applies: destructive
/// wording, a single word, no known domain, an unspecific complaint, an
/// imperative, a recognized symptom, otherwise a specific question.
pub open spec fn category_spec(
    text: Seq<char>,
    token_count: nat,
    has_symptoms: bool,
    specialty: DomainSpecialty,
) -> QueryCategory {
    if contains_any_spec(text, unsafe_terms()) {
        QueryCategory::UnsafeRequest
    } else if token_count <= 1 {
        QueryCategory::Short
    } else if specialty == DomainSpecialty::Unknown && !has_symptoms {
        QueryCategory::OutOfDomain
    } else if !has_symptoms && contains_any_spec(text, failure_terms()) {
        QueryCategory::Ambiguous
    } else if contains_any_spec(text, action_terms()) {
        QueryCategory::ActionRequest
    } else if has_symptoms {
        QueryCategory::SymptomBased
    } else {
        QueryCategory::Specific
    }
}

/// Classifies a normalized query.
pub fn classify_query_category(
    text: &str,
    tokens: &Vec<String>,
    symptoms: &Vec<String>,
    specialty: DomainSpecialty,
) -> (res: QueryCategory)
    ensures
        res == category_spec(text@, tokens.len() as nat, symptoms.len() > 0, specialty),
        (seq_contains(text@, "formatea"@)
            || seq_contains(text@, "borra"@)
            || seq_contains(text@, "elimina"@)
            || seq_contains(text@, "desactiva defender"@)
            || seq_contains(text@, "deshabilita firewall"@)
            || seq_contains(text@, "mata el proceso"@)
            || seq_contains(text@, "borra system32"@)) <==> res == QueryCategory::UnsafeRequest,
{
    proof {
        lemma_destructive_wording_is_unsafe(text@, tokens.len() as nat, symptoms.len() > 0, specialty);
    }
    let t = chars_of(text);
    let unsafe_words: [&str; 7] = ["formatea", "borra", "elimina", "desactiva defender",
        "deshabilita firewall", "mata el proceso", "borra system32"];
    assert(views_of(unsafe_words@) =~= unsafe_terms());
    if contains_any(&t, &unsafe_words) {
        return QueryCategory::UnsafeRequest;
    }
    if tokens.len() <= 1 {
        return QueryCategory::Short;
    }
    if specialty == DomainSpecialty::Unknown && symptoms.len() == 0 {
        return QueryCategory::OutOfDomain;
    }
    let failure_words: [&str; 4] = ["no funciona", "falla", "error", "problema"];
    assert(views_of(failure_words@) =~= failure_terms());
    if symptoms.len() == 0 && contains_any(&t, &failure_words) {
        return QueryCategory::Ambiguous;
    }
    let action_words: [&str; 7] = ["revisa", "diagnostica", "ejecuta", "reinicia", "repara",
        "arregla", "soluciona"];
    assert(views_of(action_words@) =~= action_terms());
    if contains_any(&t, &action_words) {
        return QueryCategory::ActionRequest;
    }
    if symptoms.len() > 0 {
        return QueryCategory::SymptomBased;
    }
    QueryCategory::Specific
}

/// Ambiguity of a query in hundredths: a base of 15, plus 35 for at most two
/// words, 25 for an unknown specialty, 15 without symptoms, 10 without
/// entities, 20 for help-seeking wording; capped at 100.
pub open spec fn ambiguity_spec(
    text: Seq<char>,
    token_count: nat,
    has_symptoms: bool,
    has_entities: bool,
    specialty: DomainSpecialty,
) -> nat {
    let raw = 15nat
        + (if token_count <= 2 { 35nat } else { 0nat })
        + (if specialty == DomainSpecialty::Unknown { 25nat } else { 0nat })
        + (if !has_symptoms { 15nat } else { 0nat })
        + (if !has_entities { 10nat } else { 0nat })
        + (if contains_any_spec(text, help_terms()) { 20nat } else { 0nat });
    if raw > 100 { 100nat } else { raw }
}

/// The ambiguity score of a normalized query, in hundredths.
pub fn compute_ambiguity_score(
    text: &str,
    tokens: &Vec<String>,
    symptoms: &Vec<String>,
    entities: &Vec<String>,
    specialty: DomainSpecialty,
) -> (res: u32)
    ensures
        res as nat == ambiguity_spec(text@, tokens.len() as nat, symptoms.len() > 0,
            entities.len() > 0, specialty),
        res <= 100,
{
    let t = chars_of(text);
    let mut score: u32 = 15;
    if tokens.len() <= 2 {
        score += 35;
    }
    if specialty == DomainSpecialty::Unknown {
        score += 25;
    }
    if symptoms.len() == 0 {
        score += 15;
    }
    if entities.len() == 0 {
        score += 10;
    }
    let help_words: [&str; 4] = ["no funciona", "ayuda", "error", "problema"];
    assert(views_of(help_words@) =~= help_terms());
    if contains_any(&t, &help_words) {
        score += 20;
    }
    if score > 100 { 100 } else { score }
}

/// Whether some token is exactly `ahora` or `ya`.
pub open spec fn has_now_token(tokens: Seq<Seq<char>>) -> bool {
    exists|k: int| 0 <= k < tokens.len() && (#[trigger] tokens[k] == "ahora"@ || tokens[k] == "ya"@)
}

/// `"high"` when the lowercased original text names an emergency or a token
/// asks for it now, otherwise `"normal"`.
pub open spec fn urgency_spec(original: Seq<char>, tokens: Seq<Seq<char>>) -> Seq<char> {
    urgency_from_lowered(lowercase_of(original), tokens)
}

/// `"high"` when a lowercased text names an emergency or a token asks for
/// it now, otherwise `"normal"`.
pub open spec fn urgency_from_lowered(lowered: Seq<char>, tokens: Seq<Seq<char>>) -> Seq<char> {
    if contains_any_spec(lowered, urgent_terms()) || has_now_token(tokens) {
        "high"@
    } else {
        "normal"@
    }
}

/// The urgency of a query, from its original wording and its tokens.
pub fn detect_urgency(original_text: &str, tokens: &Vec<String>) -> (res: String)
    ensures
        res@ == urgency_spec(original_text@, string_views(tokens@)),
{
    let lowered = lowercase_chars(original_text);
    urgency_of_lowered(&lowered, tokens)
}

/// The urgency of a query, from its lowercased wording and its tokens.
pub fn urgency_of_lowered(lowered: &Vec<char>, tokens: &Vec<String>) -> (res: String)
    ensures
        res@ == urgency_from_lowered(lowered@, string_views(tokens@)),
{
    let urgent_words: [&str; 7] = ["critico", "crítico", "urgente", "caido", "caído",
        "produccion", "producción"];
    assert(views_of(urgent_words@) =~= urgent_terms());
    if contains_any(lowered, &urgent_words) {
        return owned("high");
    }
    let mut k: usize = 0;
    while k < tokens.len()
        invariant
            k <= tokens.len(),
            forall|j: int| 0 <= j < k ==> !(#[trigger] string_views(tokens@)[j] == "ahora"@
                || string_views(tokens@)[j] == "ya"@),
        decreases tokens.len() - k,
    {
        if str_eq(tokens[k].as_str(), "ahora") || str_eq(tokens[k].as_str(), "ya") {
            assert(string_views(tokens@)[k as int] == tokens@[k as int]@);
            return owned("high");
        }
        k += 1;
    }
    owned("normal")
}

// ---------------------------------------------------------------------------
// Whole analysis
// ---------------------------------------------------------------------------

/// Analyzes a user query: every field is the corresponding rule applied to
/// the normalized text, and clarification is required when the ambiguity
/// reaches 68 hundredths or the query is short or ambiguous.
pub fn analyze_query(message: &str) -> (res: QueryAnalysis)
    ensures
        res.normalized_text@ == normalize_spec(message@),
        res.specialty == best_specialty(res.normalized_text@, specialty_rules_spec()).0,
        string_views(res.symptoms@) == matching_labels(res.normalized_text@, symptom_rules_spec()),
        string_views(res.entities@) == matching_labels(res.normalized_text@, entity_rules_spec()),
        res.query_category == category_spec(res.normalized_text@, words(res.normalized_text@).len(),
            res.symptoms.len() > 0, res.specialty),
        res.ambiguity_pct as nat == ambiguity_spec(res.normalized_text@,
            words(res.normalized_text@).len(), res.symptoms.len() > 0, res.entities.len() > 0,
            res.specialty),
        res.urgency@ == urgency_spec(message@, words(res.normalized_text@)),
        (seq_contains(res.normalized_text@, "formatea"@)
            || seq_contains(res.normalized_text@, "borra"@)
            || seq_contains(res.normalized_text@, "elimina"@)
            || seq_contains(res.normalized_text@, "desactiva defender"@)
            || seq_contains(res.normalized_text@, "deshabilita firewall"@)
            || seq_contains(res.normalized_text@, "mata el proceso"@)
            || seq_contains(res.normalized_text@, "borra system32"@)) <==> res.query_category == QueryCategory::UnsafeRequest,
        res.requires_clarification == (res.ambiguity_pct >= 68
            || res.query_category == QueryCategory::Short
            || res.query_category == QueryCategory::Ambiguous),
{
    let normalized_text = normalize_text(message);
    let tokens = tokenize(normalized_text.as_str());
    proof {
        assert(tokens@.len() == string_views(tokens@).len());
    }
    let specialty = detect_specialty(normalized_text.as_str());
    let symptoms = detect_symptoms(normalized_text.as_str());
    let entities = detect_entities(normalized_text.as_str());
    let query_category = classify_query_category(normalized_text.as_str(), &tokens, &symptoms, specialty);
    let ambiguity_pct = compute_ambiguity_score(normalized_text.as_str(), &tokens, &symptoms, &entities, specialty);
    let urgency = detect_urgency(message, &tokens);
    let requires_clarification = ambiguity_pct >= 68
        || query_category == QueryCategory::Short
        || query_category == QueryCategory::Ambiguous;
    QueryAnalysis {
        normalized_text,
        query_category,
        specialty,
        urgency,
        symptoms,
        entities,
        ambiguity_pct,
        requires_clarification,
    }
}


// ---------------------------------------------------------------------------
// Laws of the category
// ---------------------------------------------------------------------------

/// A query that asks for a destructive action (formatting, deleting,
/// disabling Defender or the firewall, killing a process) is an unsafe
/// request whatever its length, specialty or symptoms; and only such wording
/// makes a query an unsafe request.
pub proof fn lemma_destructive_wording_is_unsafe(text: Seq<char>, token_count: nat, has_symptoms: bool, specialty: DomainSpecialty)
    ensures
        (seq_contains(text, "formatea"@)
            || seq_contains(text, "borra"@)
            || seq_contains(text, "elimina"@)
            || seq_contains(text, "desactiva defender"@)
            || seq_contains(text, "deshabilita firewall"@)
            || seq_contains(text, "mata el proceso"@)
            || seq_contains(text, "borra system32"@)) <==> category_spec(text, token_count, has_symptoms, specialty) == QueryCategory::UnsafeRequest,
{
    let ts = unsafe_terms();
    if contains_any_spec(text, ts) {
        let k = choose|k: int| 0 <= k < ts.len() && #[trigger] seq_contains(text, ts[k]);
        assert(0 <= k < 7);
    }
    if seq_contains(text, "formatea"@) {
        assert(ts[0] == "formatea"@);
        assert(seq_contains(text, ts[0]));
    }
    if seq_contains(text, "borra"@) {
        assert(ts[1] == "borra"@);
        assert(seq_contains(text, ts[1]));
    }
    if seq_contains(text, "elimina"@) {
        assert(ts[2] == "elimina"@);
        assert(seq_contains(text, ts[2]));
    }
    if seq_contains(text, "desactiva defender"@) {
        assert(ts[3] == "desactiva defender"@);
        assert(seq_contains(text, ts[3]));
    }
    if seq_contains(text, "deshabilita firewall"@) {
        assert(ts[4] == "deshabilita firewall"@);
        assert(seq_contains(text, ts[4]));
    }
    if seq_contains(text, "mata el proceso"@) {
        assert(ts[5] == "mata el proceso"@);
        assert(seq_contains(text, ts[5]));
    }
    if seq_contains(text, "borra system32"@) {
        assert(ts[6] == "borra system32"@);
        assert(seq_contains(text, ts[6]));
    }
}


/// The other category rules, when the wording is not destructive: a single
/// word is short; several words with no known domain and no symptom are
/// out of domain; a query is short only with at most one word, out of
/// domain only without domain or symptom, ambiguous only for a failure
/// complaint without symptom, an action request only when it asks for an
/// action, and symptom-based only with symptoms.
pub proof fn lemma_category_rules(text: Seq<char>, token_count: nat, has_symptoms: bool, specialty: DomainSpecialty)
    ensures
        ({
            let c = category_spec(text, token_count, has_symptoms, specialty);
            let destructive = contains_any_spec(text, seq!["formatea"@, "borra"@, "elimina"@, "desactiva defender"@,
                "deshabilita firewall"@, "mata el proceso"@, "borra system32"@]);
            &&& !destructive && token_count <= 1 ==> c == QueryCategory::Short
            &&& !destructive && token_count > 1 && specialty == DomainSpecialty::Unknown && !has_symptoms
                ==> c == QueryCategory::OutOfDomain
            &&& c == QueryCategory::Short ==> token_count <= 1
            &&& c == QueryCategory::OutOfDomain ==> specialty == DomainSpecialty::Unknown && !has_symptoms
            &&& c == QueryCategory::Ambiguous ==> !has_symptoms
                && contains_any_spec(text, seq!["no funciona"@, "falla"@, "error"@, "problema"@])
            &&& c == QueryCategory::ActionRequest ==> contains_any_spec(text, seq!["revisa"@, "diagnostica"@,
                "ejecuta"@, "reinicia"@, "repara"@, "arregla"@, "soluciona"@])
            &&& c == QueryCategory::SymptomBased ==> has_symptoms
            &&& c == QueryCategory::Specific ==> !has_symptoms && !destructive
            &&& !destructive && token_count > 1 && !(specialty == DomainSpecialty::Unknown && !has_symptoms)
                && !has_symptoms && contains_any_spec(text, seq!["no funciona"@, "falla"@, "error"@, "problema"@])
                ==> c == QueryCategory::Ambiguous
            &&& !destructive && token_count > 1 && !(specialty == DomainSpecialty::Unknown && !has_symptoms)
                && !(!has_symptoms && contains_any_spec(text, seq!["no funciona"@, "falla"@, "error"@, "problema"@]))
                && contains_any_spec(text, seq!["revisa"@, "diagnostica"@, "ejecuta"@, "reinicia"@, "repara"@, "arregla"@, "soluciona"@])
                ==> c == QueryCategory::ActionRequest
            &&& !destructive && token_count > 1 && has_symptoms
                && !contains_any_spec(text, seq!["revisa"@, "diagnostica"@, "ejecuta"@, "reinicia"@, "repara"@, "arregla"@, "soluciona"@])
                ==> c == QueryCategory::SymptomBased
        }),
{
    assert(unsafe_terms() =~= seq!["formatea"@, "borra"@, "elimina"@, "desactiva defender"@,
        "deshabilita firewall"@, "mata el proceso"@, "borra system32"@]);
    assert(failure_terms() =~= seq!["no funciona"@, "falla"@, "error"@, "problema"@]);
    assert(action_terms() =~= seq!["revisa"@, "diagnostica"@, "ejecuta"@, "reinicia"@, "repara"@, "arregla"@, "soluciona"@]);
}

/// A query is urgent (`high`) when its lowercased wording names an
/// emergency (critical, urgent, down, production) or a token is `ahora`
/// or `ya`; otherwise it is `normal`.
pub proof fn lemma_urgency_words(lowered: Seq<char>, tokens: Seq<Seq<char>>)
    ensures
        urgency_from_lowered(lowered, tokens) == "high"@ || urgency_from_lowered(lowered, tokens) == "normal"@,
        contains_any_spec(lowered, seq!["critico"@, "crítico"@, "urgente"@, "caido"@, "caído"@, "produccion"@, "producción"@])
            || tokens.contains("ahora"@) || tokens.contains("ya"@) ==> urgency_from_lowered(lowered, tokens) == "high"@,
{
    assert(urgent_terms() =~= seq!["critico"@, "crítico"@, "urgente"@, "caido"@, "caído"@, "produccion"@, "producción"@]);
    if tokens.contains("ahora"@) {
        let k = choose|k: int| 0 <= k < tokens.len() && tokens[k] == "ahora"@;
        assert(tokens[k] == "ahora"@);
    }
    if tokens.contains("ya"@) {
        let k = choose|k: int| 0 <= k < tokens.len() && tokens[k] == "ya"@;
        assert(tokens[k] == "ya"@);
    }
}


/// The specialty of a text is the first rule with the most keyword hits:
/// no rule has more hits, every earlier rule has fewer, and the text is of
/// unknown specialty exactly when no keyword of any rule occurs.
pub proof fn lemma_best_specialty(text: Seq<char>, rules: Seq<(DomainSpecialty, Seq<Seq<char>>)>)
    ensures
        ({
            let (s, n) = best_specialty(text, rules);
            &&& forall|i: int| 0 <= i < rules.len() ==> count_hits(text, (#[trigger] rules[i]).1) <= n
            &&& n > 0 ==> exists|i: int| 0 <= i < rules.len() && (#[trigger] rules[i]).0 == s
                && count_hits(text, rules[i].1) == n
                && forall|j: int| 0 <= j < i ==> count_hits(text, (#[trigger] rules[j]).1) < n
            &&& n == 0 ==> s == DomainSpecialty::Unknown
        }),
    decreases rules.len(),
{
    if rules.len() > 0 {
        let prev = rules.drop_last();
        lemma_best_specialty(text, prev);
        let (ps, pn) = best_specialty(text, prev);
        let (s, n) = best_specialty(text, rules);
        assert forall|i: int| 0 <= i < rules.len() implies count_hits(text, (#[trigger] rules[i]).1) <= n by {
            if i < rules.len() - 1 {
                assert(prev[i] == rules[i]);
            }
        }
        if n > 0 {
            if count_hits(text, rules.last().1) > pn {
                let i = rules.len() - 1;
                assert forall|j: int| 0 <= j < i implies count_hits(text, (#[trigger] rules[j]).1) < n by {
                    assert(prev[j] == rules[j]);
                }
                assert(rules[i].0 == s);
            } else {
                let i = choose|i: int| 0 <= i < prev.len() && (#[trigger] prev[i]).0 == ps
                    && count_hits(text, prev[i].1) == pn
                    && forall|j: int| 0 <= j < i ==> count_hits(text, (#[trigger] prev[j]).1) < pn;
                assert(rules[i] == prev[i]);
                assert forall|j: int| 0 <= j < i implies count_hits(text, (#[trigger] rules[j]).1) < n by {
                    assert(prev[j] == rules[j]);
                }
            }
        }
    }
}

/// A symptom or entity is detected exactly when one of its phrases occurs
/// in the normalized text.
pub proof fn lemma_detected_labels(text: Seq<char>)
    ensures
        forall|i: int| 0 <= i < symptom_rules_spec().len() && contains_any_spec(text, (#[trigger] symptom_rules_spec()[i]).1)
            ==> matching_labels(text, symptom_rules_spec()).contains(symptom_rules_spec()[i].0),
        forall|i: int| 0 <= i < entity_rules_spec().len() && contains_any_spec(text, (#[trigger] entity_rules_spec()[i]).1)
            ==> matching_labels(text, entity_rules_spec()).contains(entity_rules_spec()[i].0),
        forall|l: Seq<char>| #[trigger] matching_labels(text, symptom_rules_spec()).contains(l)
            ==> exists|i: int| 0 <= i < symptom_rules_spec().len() && (#[trigger] symptom_rules_spec()[i]).0 == l
                && contains_any_spec(text, symptom_rules_spec()[i].1),
        forall|l: Seq<char>| #[trigger] matching_labels(text, entity_rules_spec()).contains(l)
            ==> exists|i: int| 0 <= i < entity_rules_spec().len() && (#[trigger] entity_rules_spec()[i]).0 == l
                && contains_any_spec(text, entity_rules_spec()[i].1),
{
    crate::rules::lemma_matching_labels(text, symptom_rules_spec());
    crate::rules::lemma_matching_labels(text, entity_rules_spec());
}

} // verus!
