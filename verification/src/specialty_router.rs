//! Multi-specialist routing: which specialties a query involves, in the
//! order they should be consulted.

use vstd::prelude::*;
use crate::models::{DomainSpecialty, QueryAnalysis, QueryCategory};
use crate::text::{contains, chars_of, owned, seq_contains, str_eq, string_views, views_of};

verus! {

/// Some item of `list` equals some candidate.
pub open spec fn any_equal(list: Seq<Seq<char>>, cands: Seq<Seq<char>>) -> bool {
    exists|k: int, j: int| 0 <= k < list.len() && 0 <= j < cands.len() && #[trigger] list[k] == #[trigger] cands[j]
}

/// Some item of `list` contains some pattern.
pub open spec fn any_containing(list: Seq<Seq<char>>, pats: Seq<Seq<char>>) -> bool {
    exists|k: int, j: int| 0 <= k < list.len() && 0 <= j < pats.len() && seq_contains(#[trigger] list[k], #[trigger] pats[j])
}

/// `list` with `s` appended unless already present.
pub open spec fn push_absent(list: Seq<DomainSpecialty>, s: DomainSpecialty) -> Seq<DomainSpecialty> {
    if list.contains(s) { list } else { list.push(s) }
}

/// The specialties a query involves: its own specialty, then services for
/// print entities, network for connectivity entities or symptoms, drivers for
/// device entities or symptoms, performance and processes for load symptoms,
/// sensitive operations for unsafe requests; each at most once, and
/// `[Unknown]` when none applies.
pub open spec fn route_spec(
    specialty: DomainSpecialty,
    category: QueryCategory,
    entities: Seq<Seq<char>>,
    symptoms: Seq<Seq<char>>,
) -> Seq<DomainSpecialty> {
    let l0 = if specialty != DomainSpecialty::Unknown { seq![specialty] } else { Seq::<DomainSpecialty>::empty() };
    let l1 = if any_equal(entities, seq!["spooler"@, "printer"@, "servicio"@]) {
        push_absent(l0, DomainSpecialty::Services)
    } else { l0 };
    let l2 = if any_equal(entities, seq!["dns"@, "ip"@, "gateway"@, "wifi"@])
        || any_containing(symptoms, seq!["net"@, "dns"@]) {
        push_absent(l1, DomainSpecialty::Network)
    } else { l1 };
    let l3 = if any_equal(entities, seq!["gpu"@, "driver"@, "pnp"@])
        || any_containing(symptoms, seq!["driver"@, "code_43"@]) {
        push_absent(l2, DomainSpecialty::Drivers)
    } else { l2 };
    let l4 = if any_equal(symptoms, seq!["disk_100"@, "high_cpu"@, "lag"@]) {
        push_absent(push_absent(l3, DomainSpecialty::Performance), DomainSpecialty::Processes)
    } else { l3 };
    let l5 = if category == QueryCategory::UnsafeRequest {
        push_absent(l4, DomainSpecialty::SensitiveOps)
    } else { l4 };
    if l5.len() == 0 { seq![DomainSpecialty::Unknown] } else { l5 }
}

fn any_eq(list: &Vec<String>, cands: &[&str]) -> (r: bool)
    ensures
        r == any_equal(string_views(list@), views_of(cands@)),
{
    let mut k: usize = 0;
    while k < list.len()
        invariant
            k <= list.len(),
            forall|a: int, b: int| 0 <= a < k && 0 <= b < cands.len()
                ==> #[trigger] string_views(list@)[a] != #[trigger] views_of(cands@)[b],
        decreases list.len() - k,
    {
        let mut j: usize = 0;
        while j < cands.len()
            invariant
                k < list.len(),
                j <= cands.len(),
                forall|a: int, b: int| 0 <= a < k && 0 <= b < cands.len()
                    ==> #[trigger] string_views(list@)[a] != #[trigger] views_of(cands@)[b],
                forall|b: int| 0 <= b < j ==> string_views(list@)[k as int] != #[trigger] views_of(cands@)[b],
            decreases cands.len() - j,
        {
            if str_eq(list[k].as_str(), cands[j]) {
                assert(string_views(list@)[k as int] == views_of(cands@)[j as int]);
                return true;
            }
            j += 1;
        }
        k += 1;
    }
    false
}

fn any_contains(list: &Vec<String>, pats: &[&str]) -> (r: bool)
    ensures
        r == any_containing(string_views(list@), views_of(pats@)),
{
    let mut k: usize = 0;
    while k < list.len()
        invariant
            k <= list.len(),
            forall|a: int, b: int| 0 <= a < k && 0 <= b < pats.len()
                ==> !seq_contains(#[trigger] string_views(list@)[a], #[trigger] views_of(pats@)[b]),
        decreases list.len() - k,
    {
        let item = chars_of(list[k].as_str());
        let mut j: usize = 0;
        while j < pats.len()
            invariant
                k < list.len(),
                j <= pats.len(),
                item@ == string_views(list@)[k as int],
                forall|a: int, b: int| 0 <= a < k && 0 <= b < pats.len()
                    ==> !seq_contains(#[trigger] string_views(list@)[a], #[trigger] views_of(pats@)[b]),
                forall|b: int| 0 <= b < j ==> !seq_contains(string_views(list@)[k as int], #[trigger] views_of(pats@)[b]),
            decreases pats.len() - j,
        {
            if contains(&item, pats[j]) {
                assert(seq_contains(string_views(list@)[k as int], views_of(pats@)[j as int]));
                return true;
            }
            j += 1;
        }
        k += 1;
    }
    false
}

fn push_if_absent(list: &mut Vec<DomainSpecialty>, s: DomainSpecialty)
    ensures
        final(list)@ == push_absent(old(list)@, s),
{
    let mut k: usize = 0;
    while k < list.len()
        invariant
            k <= list.len(),
            list@ == old(list)@,
            forall|j: int| 0 <= j < k ==> list@[j] != s,
        decreases list.len() - k,
    {
        if list[k] == s {
            assert(list@.contains(s)) by { assert(list@[k as int] == s); }
            return;
        }
        k += 1;
    }
    list.push(s);
}

/// All the specialties involved in a query, in consultation order.
pub fn route_specialties_multi(analysis: &QueryAnalysis) -> (res: Vec<DomainSpecialty>)
    ensures
        res@ == route_spec(analysis.specialty, analysis.query_category,
            string_views(analysis.entities@), string_views(analysis.symptoms@)),
        res@.len() > 0,
        analysis.specialty != DomainSpecialty::Unknown ==> res@[0] == analysis.specialty,
        string_views(analysis.entities@).contains("gpu"@) || string_views(analysis.entities@).contains("driver"@)
            || string_views(analysis.entities@).contains("pnp"@)
            || (exists|k: int| 0 <= k < analysis.symptoms@.len() && (seq_contains(#[trigger] string_views(analysis.symptoms@)[k], "driver"@)
                || seq_contains(string_views(analysis.symptoms@)[k], "code_43"@)))
            ==> res@.contains(DomainSpecialty::Drivers),
        analysis.query_category == QueryCategory::UnsafeRequest ==> res@.contains(DomainSpecialty::SensitiveOps),
{
    proof {
        lemma_route_brings_in(analysis.specialty, analysis.query_category,
            string_views(analysis.entities@), string_views(analysis.symptoms@));
    }
    let mut list: Vec<DomainSpecialty> = Vec::new();
    if analysis.specialty != DomainSpecialty::Unknown {
        list.push(analysis.specialty);
    }
    let print_words: [&str; 3] = ["spooler", "printer", "servicio"];
    assert(views_of(print_words@) =~= seq!["spooler"@, "printer"@, "servicio"@]);
    if any_eq(&analysis.entities, &print_words) {
        push_if_absent(&mut list, DomainSpecialty::Services);
    }
    let net_words: [&str; 4] = ["dns", "ip", "gateway", "wifi"];
    assert(views_of(net_words@) =~= seq!["dns"@, "ip"@, "gateway"@, "wifi"@]);
    let net_marks: [&str; 2] = ["net", "dns"];
    assert(views_of(net_marks@) =~= seq!["net"@, "dns"@]);
    if any_eq(&analysis.entities, &net_words) || any_contains(&analysis.symptoms, &net_marks) {
        push_if_absent(&mut list, DomainSpecialty::Network);
    }
    let device_words: [&str; 3] = ["gpu", "driver", "pnp"];
    assert(views_of(device_words@) =~= seq!["gpu"@, "driver"@, "pnp"@]);
    let device_marks: [&str; 2] = ["driver", "code_43"];
    assert(views_of(device_marks@) =~= seq!["driver"@, "code_43"@]);
    if any_eq(&analysis.entities, &device_words) || any_contains(&analysis.symptoms, &device_marks) {
        push_if_absent(&mut list, DomainSpecialty::Drivers);
    }
    let load_words: [&str; 3] = ["disk_100", "high_cpu", "lag"];
    assert(views_of(load_words@) =~= seq!["disk_100"@, "high_cpu"@, "lag"@]);
    if any_eq(&analysis.symptoms, &load_words) {
        push_if_absent(&mut list, DomainSpecialty::Performance);
        push_if_absent(&mut list, DomainSpecialty::Processes);
    }
    if analysis.query_category == QueryCategory::UnsafeRequest {
        push_if_absent(&mut list, DomainSpecialty::SensitiveOps);
    }
    if list.len() == 0 {
        vec![DomainSpecialty::Unknown]
    } else {
        list
    }
}

/// The first specialty a query involves.
pub fn route_specialty(analysis: &QueryAnalysis) -> (res: DomainSpecialty)
    ensures
        res == route_spec(analysis.specialty, analysis.query_category,
            string_views(analysis.entities@), string_views(analysis.symptoms@))[0],
        analysis.specialty != DomainSpecialty::Unknown ==> res == analysis.specialty,
{
    let list = route_specialties_multi(analysis);
    list[0]
}

/// The name of a specialty as written in reports (its variant name).
pub open spec fn specialty_name(s: DomainSpecialty) -> Seq<char> {
    match s {
        DomainSpecialty::System => "System"@,
        DomainSpecialty::Telemetry => "Telemetry"@,
        DomainSpecialty::Network => "Network"@,
        DomainSpecialty::Processes => "Processes"@,
        DomainSpecialty::Services => "Services"@,
        DomainSpecialty::Maintenance => "Maintenance"@,
        DomainSpecialty::Security => "Security"@,
        DomainSpecialty::Drivers => "Drivers"@,
        DomainSpecialty::Filesystem => "Filesystem"@,
        DomainSpecialty::Audit => "Audit"@,
        DomainSpecialty::Performance => "Performance"@,
        DomainSpecialty::Software => "Software"@,
        DomainSpecialty::SensitiveOps => "SensitiveOps"@,
        DomainSpecialty::Megaboss => "Megaboss"@,
        DomainSpecialty::Unknown => "Unknown"@,
    }
}

/// The report name of a specialty.
pub fn specialty_label(s: DomainSpecialty) -> (r: &'static str)
    ensures
        r@ == specialty_name(s),
{
    match s {
        DomainSpecialty::System => "System",
        DomainSpecialty::Telemetry => "Telemetry",
        DomainSpecialty::Network => "Network",
        DomainSpecialty::Processes => "Processes",
        DomainSpecialty::Services => "Services",
        DomainSpecialty::Maintenance => "Maintenance",
        DomainSpecialty::Security => "Security",
        DomainSpecialty::Drivers => "Drivers",
        DomainSpecialty::Filesystem => "Filesystem",
        DomainSpecialty::Audit => "Audit",
        DomainSpecialty::Performance => "Performance",
        DomainSpecialty::Software => "Software",
        DomainSpecialty::SensitiveOps => "SensitiveOps",
        DomainSpecialty::Megaboss => "Megaboss",
        DomainSpecialty::Unknown => "Unknown",
    }
}

/// The names of the specialties joined by `" -> "`.
pub open spec fn chain_names(specialties: Seq<DomainSpecialty>) -> Seq<char>
    decreases specialties.len(),
{
    if specialties.len() == 0 {
        Seq::<char>::empty()
    } else if specialties.len() == 1 {
        specialty_name(specialties[0])
    } else {
        chain_names(specialties.drop_last()) + " -> "@ + specialty_name(specialties.last())
    }
}

/// The collaboration plan: the single assigned specialist, or the chain of
/// specialists when there are several.
pub open spec fn plan_text_spec(specialties: Seq<DomainSpecialty>) -> Seq<char> {
    if specialties.len() <= 1 {
        "Especialista asignado: "@ + specialty_name(
            if specialties.len() == 1 { specialties[0] } else { DomainSpecialty::Unknown })
    } else {
        "Cadena de Orquestación Multi-Especialista: ["@ + chain_names(specialties) + "]"@
    }
}

/// Describes the collaboration of the specialists consulted for a query.
pub fn format_multi_specialist_plan(specialties: &[DomainSpecialty]) -> (res: String)
    ensures
        res@ == plan_text_spec(specialties@),
{
    if specialties.len() <= 1 {
        let mut out = owned("Especialista asignado: ");
        let first = if specialties.len() == 1 { specialties[0] } else { DomainSpecialty::Unknown };
        out.append(specialty_label(first));
        return out;
    }
    let mut names = owned(specialty_label(specialties[0]));
    let mut k: usize = 1;
    assert(specialties@.take(1).drop_last() =~= Seq::<DomainSpecialty>::empty());
    while k < specialties.len()
        invariant
            1 <= k <= specialties.len(),
            names@ == chain_names(specialties@.take(k as int)),
        decreases specialties.len() - k,
    {
        assert(specialties@.take(k as int + 1).drop_last() =~= specialties@.take(k as int));
        names.append(" -> ");
        names.append(specialty_label(specialties[k]));
        k += 1;
    }
    assert(specialties@.take(specialties.len() as int) =~= specialties@);
    let mut out = owned("Cadena de Orquestación Multi-Especialista: [");
    out.append(names.as_str());
    out.append("]");
    out
}


// ---------------------------------------------------------------------------
// Laws of multi-specialist routing
// ---------------------------------------------------------------------------

proof fn lemma_push_absent(l: Seq<DomainSpecialty>, s: DomainSpecialty)
    ensures
        push_absent(l, s).contains(s),
        forall|x: DomainSpecialty| l.contains(x) ==> push_absent(l, s).contains(x),
        l.len() > 0 ==> push_absent(l, s)[0] == l[0],
        push_absent(l, s).len() >= l.len(),
{
    if !l.contains(s) {
        assert(push_absent(l, s)[l.len() as int] == s);
        assert forall|x: DomainSpecialty| l.contains(x) implies push_absent(l, s).contains(x) by {
            let i = choose|i: int| 0 <= i < l.len() && l[i] == x;
            assert(push_absent(l, s)[i] == x);
        }
    }
}

/// The specialists a query brings in: its own specialty first (when it is
/// known); services for a spooler, printer or service entity; network for a
/// DNS, IP, gateway or Wi-Fi entity or a symptom mentioning `net` or `dns`;
/// drivers for a GPU, driver or PnP entity or a symptom mentioning `driver`
/// or `code_43`; performance and processes for a full disk, high CPU or lag;
/// sensitive operations for an unsafe request. The list is never empty.
pub proof fn lemma_route_brings_in(
    specialty: DomainSpecialty,
    category: QueryCategory,
    entities: Seq<Seq<char>>,
    symptoms: Seq<Seq<char>>,
)
    ensures
        ({
            let r = route_spec(specialty, category, entities, symptoms);
            &&& r.len() > 0
            &&& specialty != DomainSpecialty::Unknown ==> r[0] == specialty
            &&& entities.contains("spooler"@) || entities.contains("printer"@) || entities.contains("servicio"@) ==> r.contains(DomainSpecialty::Services)
            &&& entities.contains("dns"@) || entities.contains("ip"@) || entities.contains("gateway"@) || entities.contains("wifi"@) || (exists|k: int| 0 <= k < symptoms.len() && (seq_contains(symptoms[k], "net"@) || seq_contains(symptoms[k], "dns"@)))
                ==> r.contains(DomainSpecialty::Network)
            &&& entities.contains("gpu"@) || entities.contains("driver"@) || entities.contains("pnp"@) || (exists|k: int| 0 <= k < symptoms.len() && (seq_contains(symptoms[k], "driver"@) || seq_contains(symptoms[k], "code_43"@)))
                ==> r.contains(DomainSpecialty::Drivers)
            &&& symptoms.contains("disk_100"@) || symptoms.contains("high_cpu"@) || symptoms.contains("lag"@)
                ==> r.contains(DomainSpecialty::Performance) && r.contains(DomainSpecialty::Processes)
            &&& category == QueryCategory::UnsafeRequest ==> r.contains(DomainSpecialty::SensitiveOps)
        }),
{
    let c1 = seq!["spooler"@, "printer"@, "servicio"@];
    let c2 = seq!["dns"@, "ip"@, "gateway"@, "wifi"@];
    let p2 = seq!["net"@, "dns"@];
    let c3 = seq!["gpu"@, "driver"@, "pnp"@];
    let p3 = seq!["driver"@, "code_43"@];
    let c4 = seq!["disk_100"@, "high_cpu"@, "lag"@];
    if entities.contains("spooler"@) {
        let k = choose|k: int| 0 <= k < entities.len() && entities[k] == "spooler"@;
        assert(c1[0] == "spooler"@);
        assert(entities[k] == c1[0]);
    }
    if entities.contains("printer"@) {
        let k = choose|k: int| 0 <= k < entities.len() && entities[k] == "printer"@;
        assert(c1[1] == "printer"@);
        assert(entities[k] == c1[1]);
    }
    if entities.contains("servicio"@) {
        let k = choose|k: int| 0 <= k < entities.len() && entities[k] == "servicio"@;
        assert(c1[2] == "servicio"@);
        assert(entities[k] == c1[2]);
    }
    if entities.contains("dns"@) {
        let k = choose|k: int| 0 <= k < entities.len() && entities[k] == "dns"@;
        assert(c2[0] == "dns"@);
        assert(entities[k] == c2[0]);
    }
    if entities.contains("ip"@) {
        let k = choose|k: int| 0 <= k < entities.len() && entities[k] == "ip"@;
        assert(c2[1] == "ip"@);
        assert(entities[k] == c2[1]);
    }
    if entities.contains("gateway"@) {
        let k = choose|k: int| 0 <= k < entities.len() && entities[k] == "gateway"@;
        assert(c2[2] == "gateway"@);
        assert(entities[k] == c2[2]);
    }
    if entities.contains("wifi"@) {
        let k = choose|k: int| 0 <= k < entities.len() && entities[k] == "wifi"@;
        assert(c2[3] == "wifi"@);
        assert(entities[k] == c2[3]);
    }
    if (exists|k: int| 0 <= k < symptoms.len() && (seq_contains(symptoms[k], "net"@) || seq_contains(symptoms[k], "dns"@))) {
        let k = choose|k: int| 0 <= k < symptoms.len() && (seq_contains(symptoms[k], "net"@) || seq_contains(symptoms[k], "dns"@));
        if seq_contains(symptoms[k], "net"@) {
            assert(p2[0] == "net"@);
            assert(seq_contains(symptoms[k], p2[0]));
        }
        if seq_contains(symptoms[k], "dns"@) {
            assert(p2[1] == "dns"@);
            assert(seq_contains(symptoms[k], p2[1]));
        }
    }
    if entities.contains("gpu"@) {
        let k = choose|k: int| 0 <= k < entities.len() && entities[k] == "gpu"@;
        assert(c3[0] == "gpu"@);
        assert(entities[k] == c3[0]);
    }
    if entities.contains("driver"@) {
        let k = choose|k: int| 0 <= k < entities.len() && entities[k] == "driver"@;
        assert(c3[1] == "driver"@);
        assert(entities[k] == c3[1]);
    }
    if entities.contains("pnp"@) {
        let k = choose|k: int| 0 <= k < entities.len() && entities[k] == "pnp"@;
        assert(c3[2] == "pnp"@);
        assert(entities[k] == c3[2]);
    }
    if (exists|k: int| 0 <= k < symptoms.len() && (seq_contains(symptoms[k], "driver"@) || seq_contains(symptoms[k], "code_43"@))) {
        let k = choose|k: int| 0 <= k < symptoms.len() && (seq_contains(symptoms[k], "driver"@) || seq_contains(symptoms[k], "code_43"@));
        if seq_contains(symptoms[k], "driver"@) {
            assert(p3[0] == "driver"@);
            assert(seq_contains(symptoms[k], p3[0]));
        }
        if seq_contains(symptoms[k], "code_43"@) {
            assert(p3[1] == "code_43"@);
            assert(seq_contains(symptoms[k], p3[1]));
        }
    }
    if symptoms.contains("disk_100"@) {
        let k = choose|k: int| 0 <= k < symptoms.len() && symptoms[k] == "disk_100"@;
        assert(c4[0] == "disk_100"@);
        assert(symptoms[k] == c4[0]);
    }
    if symptoms.contains("high_cpu"@) {
        let k = choose|k: int| 0 <= k < symptoms.len() && symptoms[k] == "high_cpu"@;
        assert(c4[1] == "high_cpu"@);
        assert(symptoms[k] == c4[1]);
    }
    if symptoms.contains("lag"@) {
        let k = choose|k: int| 0 <= k < symptoms.len() && symptoms[k] == "lag"@;
        assert(c4[2] == "lag"@);
        assert(symptoms[k] == c4[2]);
    }

    let l0 = if specialty != DomainSpecialty::Unknown { seq![specialty] } else { Seq::<DomainSpecialty>::empty() };
    let l1 = if any_equal(entities, c1) { push_absent(l0, DomainSpecialty::Services) } else { l0 };
    let l2 = if any_equal(entities, c2) || any_containing(symptoms, p2) { push_absent(l1, DomainSpecialty::Network) } else { l1 };
    let l3 = if any_equal(entities, c3) || any_containing(symptoms, p3) { push_absent(l2, DomainSpecialty::Drivers) } else { l2 };
    let l3p = push_absent(l3, DomainSpecialty::Performance);
    let l4 = if any_equal(symptoms, c4) { push_absent(l3p, DomainSpecialty::Processes) } else { l3 };
    let l5 = if category == QueryCategory::UnsafeRequest { push_absent(l4, DomainSpecialty::SensitiveOps) } else { l4 };
    if specialty != DomainSpecialty::Unknown {
        assert(l0.contains(specialty)) by { assert(l0[0] == specialty); }
    }
    lemma_push_absent(l0, DomainSpecialty::Services);
    lemma_push_absent(l1, DomainSpecialty::Network);
    lemma_push_absent(l2, DomainSpecialty::Drivers);
    lemma_push_absent(l3, DomainSpecialty::Performance);
    lemma_push_absent(l3p, DomainSpecialty::Processes);
    lemma_push_absent(l4, DomainSpecialty::SensitiveOps);
    assert(route_spec(specialty, category, entities, symptoms) == (if l5.len() == 0 { seq![DomainSpecialty::Unknown] } else { l5 }));
}


proof fn lemma_push_absent_keeps(l: Seq<DomainSpecialty>, s: DomainSpecialty)
    ensures
        forall|x: DomainSpecialty| push_absent(l, s).contains(x) ==> l.contains(x) || x == s,
        (forall|i: int, j: int| 0 <= i < j < l.len() ==> l[i] != l[j])
            ==> (forall|i: int, j: int| 0 <= i < j < push_absent(l, s).len() ==> push_absent(l, s)[i] != push_absent(l, s)[j]),
{
    let p = push_absent(l, s);
    assert forall|x: DomainSpecialty| p.contains(x) implies l.contains(x) || x == s by {
        let i = choose|i: int| 0 <= i < p.len() && p[i] == x;
        if i < l.len() {
            assert(l[i] == x);
        }
    }
}

/// The specialists a query brings in are only those its own specialty and
/// its entities, symptoms and category call for (or `Unknown` when none
/// does), each named once.
pub proof fn lemma_route_brings_in_only(
    specialty: DomainSpecialty,
    category: QueryCategory,
    entities: Seq<Seq<char>>,
    symptoms: Seq<Seq<char>>,
)
    ensures
        ({
            let r = route_spec(specialty, category, entities, symptoms);
            &&& forall|i: int, j: int| 0 <= i < j < r.len() ==> r[i] != r[j]
            &&& forall|x: DomainSpecialty| #[trigger] r.contains(x) ==> {
                ||| x == specialty
                ||| x == DomainSpecialty::Unknown
                ||| x == DomainSpecialty::Services && (entities.contains("spooler"@) || entities.contains("printer"@) || entities.contains("servicio"@))
                ||| x == DomainSpecialty::Network && ((entities.contains("dns"@) || entities.contains("ip"@) || entities.contains("gateway"@) || entities.contains("wifi"@)) || (exists|k: int| 0 <= k < symptoms.len() && (seq_contains(symptoms[k], "net"@) || seq_contains(symptoms[k], "dns"@))))
                ||| x == DomainSpecialty::Drivers && ((entities.contains("gpu"@) || entities.contains("driver"@) || entities.contains("pnp"@)) || (exists|k: int| 0 <= k < symptoms.len() && (seq_contains(symptoms[k], "driver"@) || seq_contains(symptoms[k], "code_43"@))))
                ||| (x == DomainSpecialty::Performance || x == DomainSpecialty::Processes) && (symptoms.contains("disk_100"@) || symptoms.contains("high_cpu"@) || symptoms.contains("lag"@))
                ||| x == DomainSpecialty::SensitiveOps && category == QueryCategory::UnsafeRequest
            }
        }),
{
    let c1 = seq!["spooler"@, "printer"@, "servicio"@];
    let c2 = seq!["dns"@, "ip"@, "gateway"@, "wifi"@];
    let p2 = seq!["net"@, "dns"@];
    let c3 = seq!["gpu"@, "driver"@, "pnp"@];
    let p3 = seq!["driver"@, "code_43"@];
    let c4 = seq!["disk_100"@, "high_cpu"@, "lag"@];
    if any_equal(entities, c1) {
        let (k, j) = choose|k: int, j: int| 0 <= k < entities.len() && 0 <= j < c1.len() && #[trigger] entities[k] == #[trigger] c1[j];
        assert(entities.contains(entities[k]));
    }
    if any_equal(entities, c2) {
        let (k, j) = choose|k: int, j: int| 0 <= k < entities.len() && 0 <= j < c2.len() && #[trigger] entities[k] == #[trigger] c2[j];
        assert(entities.contains(entities[k]));
    }
    if any_containing(symptoms, p2) {
        let (k, j) = choose|k: int, j: int| 0 <= k < symptoms.len() && 0 <= j < p2.len() && seq_contains(#[trigger] symptoms[k], #[trigger] p2[j]);
        assert(seq_contains(symptoms[k], p2[j]));
    }
    if any_equal(entities, c3) {
        let (k, j) = choose|k: int, j: int| 0 <= k < entities.len() && 0 <= j < c3.len() && #[trigger] entities[k] == #[trigger] c3[j];
        assert(entities.contains(entities[k]));
    }
    if any_containing(symptoms, p3) {
        let (k, j) = choose|k: int, j: int| 0 <= k < symptoms.len() && 0 <= j < p3.len() && seq_contains(#[trigger] symptoms[k], #[trigger] p3[j]);
        assert(seq_contains(symptoms[k], p3[j]));
    }
    if any_equal(symptoms, c4) {
        let (k, j) = choose|k: int, j: int| 0 <= k < symptoms.len() && 0 <= j < c4.len() && #[trigger] symptoms[k] == #[trigger] c4[j];
        assert(symptoms.contains(symptoms[k]));
    }

    let l0 = if specialty != DomainSpecialty::Unknown { seq![specialty] } else { Seq::<DomainSpecialty>::empty() };
    let l1 = if any_equal(entities, c1) { push_absent(l0, DomainSpecialty::Services) } else { l0 };
    let l2 = if any_equal(entities, c2) || any_containing(symptoms, p2) { push_absent(l1, DomainSpecialty::Network) } else { l1 };
    let l3 = if any_equal(entities, c3) || any_containing(symptoms, p3) { push_absent(l2, DomainSpecialty::Drivers) } else { l2 };
    let l3p = push_absent(l3, DomainSpecialty::Performance);
    let l4 = if any_equal(symptoms, c4) { push_absent(l3p, DomainSpecialty::Processes) } else { l3 };
    let l5 = if category == QueryCategory::UnsafeRequest { push_absent(l4, DomainSpecialty::SensitiveOps) } else { l4 };
    assert forall|x: DomainSpecialty| l0.contains(x) implies x == specialty by {
        let i = choose|i: int| 0 <= i < l0.len() && l0[i] == x;
    }
    lemma_push_absent_keeps(l0, DomainSpecialty::Services);
    lemma_push_absent_keeps(l1, DomainSpecialty::Network);
    lemma_push_absent_keeps(l2, DomainSpecialty::Drivers);
    lemma_push_absent_keeps(l3, DomainSpecialty::Performance);
    lemma_push_absent_keeps(l3p, DomainSpecialty::Processes);
    lemma_push_absent_keeps(l4, DomainSpecialty::SensitiveOps);
    let r = route_spec(specialty, category, entities, symptoms);
    assert(r == (if l5.len() == 0 { seq![DomainSpecialty::Unknown] } else { l5 }));
    if l5.len() == 0 {
        assert forall|x: DomainSpecialty| #[trigger] r.contains(x) implies x == DomainSpecialty::Unknown by {
            let i = choose|i: int| 0 <= i < r.len() && r[i] == x;
        }
    }
}

} // verus!
