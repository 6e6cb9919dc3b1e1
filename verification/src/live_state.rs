//! Observations drawn from the live state of the machine, and conflicts
//! between that state and the last snapshot.

use vstd::prelude::*;
use crate::models::DomainSpecialty;
use crate::text::{contains_any, contains_any_spec, decimal, decimal_string, lowercase_chars, lowercase_of, views_of, seq_contains, contains, str_eq};

verus! {

/// What a probe of the machine read, as plain values: the local address the
/// network diagnostic reports, whether each network check succeeded (none
/// when there were no checks), and the text of the spooler, driver and
/// health reports.
#[derive(Debug, Clone)]
pub struct LiveProbe {
    pub network_local_ip: Option<String>,
    pub network_check_results: Option<Vec<Option<bool>>>,
    pub spooler_output: String,
    pub driver_output: String,
    pub health_output: String,
}

/// What the last snapshot recorded, as plain values (empty text or zero when
/// it recorded nothing).
#[derive(Debug, Clone)]
pub struct SnapshotFacts {
    pub network_local_ip: String,
    pub services_spooler: String,
    pub drivers_issue_code: i64,
}

/// What was learned of the live state for a query: the specialty probed,
/// the summary lines, the observations, the conflicts with the last
/// snapshot, where that snapshot came from, and the current state and last
/// snapshot as JSON text.
#[derive(Debug, Clone)]
pub struct LiveStateContext {
    pub specialty: Option<DomainSpecialty>,
    pub summary: Vec<String>,
    pub observations: Vec<String>,
    pub conflict_flags: Vec<String>,
    pub snapshot_source: Option<String>,
    pub current_state: String,
    pub last_snapshot: Option<String>,
}

impl Default for LiveStateContext {
    /// No live state: nothing read, and a current state of `null`.
    fn default() -> (r: Self)
        ensures
            r.specialty is None,
            r.summary@.len() == 0,
            r.observations@.len() == 0,
            r.conflict_flags@.len() == 0,
            r.snapshot_source is None,
            r.current_state@ == "null"@,
            r.last_snapshot is None,
    {
        LiveStateContext {
            specialty: None,
            summary: Vec::new(),
            observations: Vec::new(),
            conflict_flags: Vec::new(),
            snapshot_source: None,
            current_state: String::from_str("null"),
            last_snapshot: None,
        }
    }
}

/// Specialties whose observations are plain text (the performance ones are
/// measured, not read).
pub open spec fn text_observed(s: DomainSpecialty) -> bool {
    s != DomainSpecialty::Performance && s != DomainSpecialty::Maintenance
}

/// How many checks failed: those whose success is recorded as false.
pub open spec fn failed_count(results: Seq<Option<bool>>) -> nat
    decreases results.len(),
{
    if results.len() == 0 {
        0
    } else {
        failed_count(results.drop_last()) + if results.last() == Some(false) { 1nat } else { 0nat }
    }
}

/// Labels chosen by what a lowercased report holds, with a fallback when
/// none applies.
pub open spec fn report_labels(l: Seq<char>, first: bool, first_label: Seq<char>, second: bool, second_label: Seq<char>, fallback: Seq<char>) -> Seq<Seq<char>> {
    let out = (if first { seq![first_label] } else { Seq::empty() }) + (if second { seq![second_label] } else { Seq::empty() });
    if out.len() == 0 { seq![fallback] } else { out }
}

/// The observations for a specialty.
pub open spec fn observations_spec(specialty: DomainSpecialty, p: LiveProbe) -> Seq<Seq<char>> {
    match specialty {
        DomainSpecialty::Network => {
            let ip = match p.network_local_ip { Some(x) => seq!["local_ip="@ + x@], None => Seq::empty() };
            let checks = match p.network_check_results {
                Some(cs) => {
                    let failed = failed_count(cs@);
                    seq!["network_failed_checks="@ + decimal(failed)] + if failed > 0 { seq!["network_degraded"@] } else { Seq::empty() }
                },
                None => Seq::empty(),
            };
            ip + checks
        },
        DomainSpecialty::Services => {
            let l = lowercase_of(p.spooler_output@);
            report_labels(l, seq_contains(l, "running"@), "spooler_running"@,
                seq_contains(l, "stopped"@) || seq_contains(l, "detenido"@), "spooler_stopped"@, "spooler_unknown"@)
        },
        DomainSpecialty::Drivers => {
            let l = lowercase_of(p.driver_output@);
            report_labels(l, seq_contains(l, "codigo: 43"@) || seq_contains(l, "code 43"@), "driver_code_43_live"@,
                seq_contains(l, "no se detectaron controladores con problemas"@), "drivers_ok"@, "driver_state_unclear"@)
        },
        DomainSpecialty::Security => {
            let l = lowercase_of(p.health_output@);
            report_labels(l, seq_contains(l, "riesgo operacional: alto"@), "security_risk_high"@,
                seq_contains(l, "anomalia detectada: si"@), "security_anomaly_present"@, "security_state_nominal"@)
        },
        _ => seq!["generic_state_loaded"@],
    }
}

fn labels(first: bool, first_label: &str, second: bool, second_label: &str, fallback: &str) -> (r: Vec<String>)
    ensures
        r@.map_values(|s: String| s@) == report_labels(Seq::empty(), first, first_label@, second, second_label@, fallback@),
{
    let mut out: Vec<String> = Vec::new();
    if first {
        out.push(String::from_str(first_label));
    }
    if second {
        out.push(String::from_str(second_label));
    }
    if out.len() == 0 {
        out.push(String::from_str(fallback));
    }
    proof {
        let expect = report_labels(Seq::empty(), first, first_label@, second, second_label@, fallback@);
        assert(out@.map_values(|s: String| s@) =~= expect);
    }
    out
}

fn count_failed(results: &Vec<Option<bool>>) -> (r: usize)
    ensures
        r == failed_count(results@),
{
    let mut n: usize = 0;
    let mut i: usize = 0;
    while i < results.len()
        invariant
            i <= results.len(),
            n == failed_count(results@.take(i as int)),
            n <= i,
        decreases results.len() - i,
    {
        assert(results@.take(i as int + 1).drop_last() =~= results@.take(i as int));
        match results[i] {
            Some(false) => {
                n += 1;
            },
            _ => {},
        }
        i += 1;
    }
    assert(results@.take(results.len() as int) =~= results@);
    n
}

/// The observations a probe gives for a specialty read from text.
pub fn build_observations(specialty: &DomainSpecialty, probe: &LiveProbe) -> (r: Vec<String>)
    requires
        text_observed(*specialty),
    ensures
        r@.map_values(|s: String| s@) == observations_spec(*specialty, *probe),
{
    match specialty {
        DomainSpecialty::Network => {
            let mut out: Vec<String> = Vec::new();
            if let Some(ip) = &probe.network_local_ip {
                let mut line = String::from_str("local_ip=");
                line.append(ip.as_str());
                out.push(line);
            }
            let ghost first = out@.map_values(|s: String| s@);
            if let Some(checks) = &probe.network_check_results {
                let failed = count_failed(checks);
                let mut line = String::from_str("network_failed_checks=");
                let n = decimal_string(failed);
                line.append(n.as_str());
                out.push(line);
                if failed > 0 {
                    out.push(String::from_str("network_degraded"));
                }
            }
            assert(out@.map_values(|s: String| s@) =~= observations_spec(*specialty, *probe));
            out
        },
        DomainSpecialty::Services => {
            let l = lowercase_chars(probe.spooler_output.as_str());
            let running = contains(&l, "running");
            let stopped = contains(&l, "stopped") || contains(&l, "detenido");
            labels(running, "spooler_running", stopped, "spooler_stopped", "spooler_unknown")
        },
        DomainSpecialty::Drivers => {
            let l = lowercase_chars(probe.driver_output.as_str());
            let code43 = contains(&l, "codigo: 43") || contains(&l, "code 43");
            let ok = contains(&l, "no se detectaron controladores con problemas");
            labels(code43, "driver_code_43_live", ok, "drivers_ok", "driver_state_unclear")
        },
        DomainSpecialty::Security => {
            let l = lowercase_chars(probe.health_output.as_str());
            let risk = contains(&l, "riesgo operacional: alto");
            let anomaly = contains(&l, "anomalia detectada: si");
            labels(risk, "security_risk_high", anomaly, "security_anomaly_present", "security_state_nominal")
        },
        _ => {
            let out = vec![String::from_str("generic_state_loaded")];
            assert(out@.map_values(|s: String| s@) =~= seq!["generic_state_loaded"@]);
            out
        },
    }
}

/// The conflicts between the live state and the last snapshot, for a
/// specialty read from text.
pub open spec fn conflicts_spec(specialty: DomainSpecialty, p: LiveProbe, snapshot: Option<SnapshotFacts>) -> Seq<Seq<char>> {
    match snapshot {
        None => Seq::empty(),
        Some(f) => match specialty {
            DomainSpecialty::Network => {
                let live = match p.network_local_ip { Some(x) => x@, None => Seq::empty() };
                let snap = f.network_local_ip@;
                if live.len() > 0 && snap.len() > 0 && live != snap { seq!["network_identity_changed"@] } else { Seq::empty() }
            },
            DomainSpecialty::Services => {
                let live = lowercase_of(p.spooler_output@);
                let snap = lowercase_of(f.services_spooler@);
                if snap.len() > 0 && ((seq_contains(live, "running"@) && seq_contains(snap, "stopped"@))
                    || (seq_contains(live, "stopped"@) && seq_contains(snap, "running"@))) {
                    seq!["service_state_changed"@]
                } else {
                    Seq::empty()
                }
            },
            DomainSpecialty::Drivers => {
                if seq_contains(lowercase_of(p.driver_output@), "codigo: 43"@) && f.drivers_issue_code != 43 {
                    seq!["driver_issue_changed"@]
                } else {
                    Seq::empty()
                }
            },
            _ => Seq::empty(),
        },
    }
}

fn one_or_none(flag: bool, label: &str) -> (r: Vec<String>)
    ensures
        r@.map_values(|s: String| s@) == (if flag { seq![label@] } else { Seq::<Seq<char>>::empty() }),
{
    let mut out: Vec<String> = Vec::new();
    if flag {
        out.push(String::from_str(label));
    }
    assert(out@.map_values(|s: String| s@) =~= (if flag { seq![label@] } else { Seq::<Seq<char>>::empty() }));
    out
}

/// The conflicts between the live state and the last snapshot.
pub fn detect_conflicts(specialty: &DomainSpecialty, probe: &LiveProbe, snapshot: Option<&SnapshotFacts>) -> (r: Vec<String>)
    requires
        text_observed(*specialty),
    ensures
        r@.map_values(|s: String| s@) == conflicts_spec(*specialty, *probe, match snapshot { Some(f) => Some(*f), None => None }),
{
    match snapshot {
        None => {
            let out: Vec<String> = Vec::new();
            assert(out@.map_values(|s: String| s@) =~= Seq::<Seq<char>>::empty());
            out
        },
        Some(f) => match specialty {
            DomainSpecialty::Network => {
                let live = match &probe.network_local_ip {
                    Some(x) => x.clone(),
                    None => String::new(),
                };
                let changed = !live.as_str().is_empty() && !f.network_local_ip.as_str().is_empty()
                    && !str_eq(live.as_str(), f.network_local_ip.as_str());
                one_or_none(changed, "network_identity_changed")
            },
            DomainSpecialty::Services => {
                let live = lowercase_chars(probe.spooler_output.as_str());
                let snap = lowercase_chars(f.services_spooler.as_str());
                let changed = snap.len() > 0 && ((contains(&live, "running") && contains(&snap, "stopped"))
                    || (contains(&live, "stopped") && contains(&snap, "running")));
                one_or_none(changed, "service_state_changed")
            },
            DomainSpecialty::Drivers => {
                let live = lowercase_chars(probe.driver_output.as_str());
                one_or_none(contains(&live, "codigo: 43") && f.drivers_issue_code != 43, "driver_issue_changed")
            },
            _ => one_or_none(false, ""),
        },
    }
}

/// The summary of the live state: the snapshot's source, the observations,
/// then each conflict as `conflict=<flag>`.
pub open spec fn summary_spec(snapshot_source: Option<Seq<char>>, observations: Seq<Seq<char>>, conflicts: Seq<Seq<char>>) -> Seq<Seq<char>> {
    (match snapshot_source { Some(s) => seq!["snapshot_reciente="@ + s], None => Seq::empty() })
        + observations + conflicts.map_values(|c: Seq<char>| "conflict="@ + c)
}

/// Summarizes the live state.
pub fn live_summary(snapshot_source: &Option<String>, observations: &Vec<String>, conflicts: &Vec<String>) -> (r: Vec<String>)
    ensures
        r@.map_values(|s: String| s@) == summary_spec(match snapshot_source { Some(s) => Some(s@), None => None },
            observations@.map_values(|s: String| s@), conflicts@.map_values(|s: String| s@)),
{
    let mut out: Vec<String> = Vec::new();
    if let Some(src) = snapshot_source {
        let mut line = String::from_str("snapshot_reciente=");
        line.append(src.as_str());
        out.push(line);
    }
    let ghost head = out@.map_values(|s: String| s@);
    let mut i: usize = 0;
    while i < observations.len()
        invariant
            i <= observations.len(),
            out@.map_values(|s: String| s@) == head + observations@.map_values(|s: String| s@).take(i as int),
        decreases observations.len() - i,
    {
        let ghost before = out@;
        let c = observations[i].clone();
        out.push(c);
        assert(out@ == before.push(c));
        assert(out@.map_values(|s: String| s@) =~= before.map_values(|s: String| s@).push(c@));
        assert(out@.map_values(|s: String| s@) =~= head + observations@.map_values(|s: String| s@).take(i as int + 1));
        i += 1;
    }
    assert(observations@.map_values(|s: String| s@).take(observations.len() as int) =~= observations@.map_values(|s: String| s@));
    let ghost mid = out@.map_values(|s: String| s@);
    let mut k: usize = 0;
    while k < conflicts.len()
        invariant
            k <= conflicts.len(),
            out@.map_values(|s: String| s@) == mid + conflicts@.map_values(|s: String| s@).take(k as int).map_values(|c: Seq<char>| "conflict="@ + c),
        decreases conflicts.len() - k,
    {
        let mut line = String::from_str("conflict=");
        line.append(conflicts[k].as_str());
        let ghost before = out@;
        out.push(line);
        assert(out@ == before.push(line));
        assert(out@.map_values(|s: String| s@) =~= before.map_values(|s: String| s@).push(line@));
        assert(out@.map_values(|s: String| s@) =~= mid + conflicts@.map_values(|s: String| s@).take(k as int + 1).map_values(|c: Seq<char>| "conflict="@ + c));
        k += 1;
    }
    assert(conflicts@.map_values(|s: String| s@).take(conflicts.len() as int) =~= conflicts@.map_values(|s: String| s@));
    out
}


/// The live state read for a query: the probe's observations, its
/// conflicts with the last snapshot, and the summary of both; the current
/// state and last snapshot are kept as JSON text.
pub fn assemble_live_state(
    specialty: DomainSpecialty,
    probe: &LiveProbe,
    snapshot: Option<&SnapshotFacts>,
    snapshot_source: Option<String>,
    current_state: String,
    last_snapshot: Option<String>,
) -> (r: LiveStateContext)
    requires
        text_observed(specialty),
    ensures
        r.specialty == Some(specialty),
        r.observations@.map_values(|s: String| s@) == observations_spec(specialty, *probe),
        r.conflict_flags@.map_values(|s: String| s@) == conflicts_spec(specialty, *probe, match snapshot { Some(f) => Some(*f), None => None }),
        r.summary@.map_values(|s: String| s@) == summary_spec(match snapshot_source { Some(s) => Some(s@), None => None },
            observations_spec(specialty, *probe), conflicts_spec(specialty, *probe, match snapshot { Some(f) => Some(*f), None => None })),
        r.snapshot_source == snapshot_source,
        r.current_state == current_state,
        r.last_snapshot == last_snapshot,
{
    let observations = build_observations(&specialty, probe);
    let conflict_flags = detect_conflicts(&specialty, probe, snapshot);
    let summary = live_summary(&snapshot_source, &observations, &conflict_flags);
    LiveStateContext {
        specialty: Some(specialty),
        summary,
        observations,
        conflict_flags,
        snapshot_source,
        current_state,
        last_snapshot,
    }
}

} // verus!
