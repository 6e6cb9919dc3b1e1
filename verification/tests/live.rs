use kernelia::live_state::{build_observations, detect_conflicts, live_summary, LiveProbe, SnapshotFacts};
use kernelia::models::DomainSpecialty;

fn probe() -> LiveProbe {
    LiveProbe {
        network_local_ip: None,
        network_check_results: None,
        spooler_output: String::new(),
        driver_output: String::new(),
        health_output: String::new(),
    }
}

#[test]
fn extracts_driver_observation_for_code_43() {
    let mut current = probe();
    current.driver_output = "1. GPU NVIDIA\n   - Codigo: 43 (Dispositivo detenido por error)\n".to_string();
    let observations = build_observations(&DomainSpecialty::Drivers, &current);
    assert!(observations.iter().any(|item| item == "driver_code_43_live"));
}

#[test]
fn extracts_service_observation_for_spooler_running() {
    let mut current = probe();
    current.spooler_output = "STATE              : 4  RUNNING".to_string();
    let observations = build_observations(&DomainSpecialty::Services, &current);
    assert!(observations.iter().any(|item| item == "spooler_running"));
}

#[test]
fn detects_service_conflict_against_snapshot() {
    let mut current = probe();
    current.spooler_output = "STATE              : 4  RUNNING".to_string();
    let snapshot = SnapshotFacts { network_local_ip: String::new(), services_spooler: "stopped".to_string(), drivers_issue_code: 0 };
    let conflicts = detect_conflicts(&DomainSpecialty::Services, &current, Some(&snapshot));
    assert!(conflicts.iter().any(|item| item == "service_state_changed"));
}

#[test]
fn network_observations_count_failed_checks() {
    let mut current = probe();
    current.network_local_ip = Some("10.0.0.5".to_string());
    current.network_check_results = Some(vec![Some(true), Some(false), None, Some(false)]);
    let observations = build_observations(&DomainSpecialty::Network, &current);
    assert_eq!(observations, vec!["local_ip=10.0.0.5", "network_failed_checks=2", "network_degraded"]);
    let snapshot = SnapshotFacts { network_local_ip: "10.0.0.9".to_string(), services_spooler: String::new(), drivers_issue_code: 0 };
    assert_eq!(detect_conflicts(&DomainSpecialty::Network, &current, Some(&snapshot)), vec!["network_identity_changed"]);
    assert!(detect_conflicts(&DomainSpecialty::Network, &current, None).is_empty());
    let summary = live_summary(&Some("manual".to_string()), &observations, &vec!["x".to_string()]);
    assert_eq!(summary[0], "snapshot_reciente=manual");
    assert_eq!(summary.last().unwrap(), "conflict=x");
    assert_eq!(build_observations(&DomainSpecialty::Security, &probe()), vec!["security_state_nominal"]);
    assert_eq!(build_observations(&DomainSpecialty::Unknown, &probe()), vec!["generic_state_loaded"]);
}
