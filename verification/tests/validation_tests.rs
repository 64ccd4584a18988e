use c2s_setup::validation::{
    all_ok, env_file_for, equal_ignoring_ascii_case, essential_apps, parse_user_names,
    prerequisite_packages, tool_install_dirs, ValidationState,
};

#[test]
fn new_state() {
    let s = ValidationState::new();
    assert!(s.is_checking);
    assert!(!s.prereqs_met);
    let names: Vec<&str> = s.tool_binary_status.iter().map(|(n, _)| n.as_str()).collect();
    assert_eq!(names, vec!["Xilinx", "Cadence", "Silvaco", "CADRE"]);
    assert!(s.tool_env_status.iter().all(|(_, ok)| !ok));
}

#[test]
fn record_summarises() {
    let mut s = ValidationState::new();
    s.record(
        vec![("gcc".to_string(), true), ("libXp".to_string(), false)],
        vec![("VS Code".to_string(), true)],
        vec![],
        vec![],
        vec![("srmist3091".to_string(), true)],
    );
    assert!(!s.is_checking);
    assert!(!s.prereqs_met);
    assert!(s.essential_apps_met);
    assert_eq!(s.configured_users.len(), 1);
    assert!(all_ok(&vec![]));
}

#[test]
fn record_checks_keeps_names() {
    let mut s = ValidationState::new();
    s.record_checks(
        vec![true, true, false, true],
        vec![true, true, true],
        vec![true, false, false, true],
        vec![false, true, true, true],
        vec![],
    );
    assert!(!s.is_checking);
    assert!(!s.prereqs_met);
    assert!(s.essential_apps_met);
    assert_eq!(s.prereqs_details[2], ("libXp".to_string(), false));
    assert_eq!(s.apps_details[0], ("Google Chrome".to_string(), true));
    let names: Vec<&str> = s.tool_binary_status.iter().map(|(n, _)| n.as_str()).collect();
    assert_eq!(names, vec!["Xilinx", "Cadence", "Silvaco", "CADRE"]);
    assert_eq!(s.tool_binary_status[3], ("CADRE".to_string(), true));
    assert_eq!(s.tool_env_status[0], ("Xilinx".to_string(), false));
}

#[test]
fn lists() {
    assert_eq!(prerequisite_packages(), vec!["epel-release", "gcc", "libXp", "libnsl"]);
    assert_eq!(essential_apps()[1], ("VS Code", "code"));
    assert_eq!(tool_install_dirs()[2], ("Silvaco", "/opt/sedatools"));
}

#[test]
fn env_files() {
    assert_eq!(env_file_for("Cadence"), "/opt/cadence/cadence-env.sh");
    assert_eq!(env_file_for("CADENCE"), "/opt/cadence/cadence-env.sh");
    assert_eq!(env_file_for("Xilinx"), "/opt/vlsilab/eda-launcher.sh");
    assert!(equal_ignoring_ascii_case("CaDrE", "cadre"));
    assert!(!equal_ignoring_ascii_case("cadre", "cadres"));
    assert!(!equal_ignoring_ascii_case("É", "é"));
}

#[test]
fn user_names() {
    assert_eq!(parse_user_names("alice\n  bob \n\n\rcarol\r\n"), vec!["alice", "bob", "carol"]);
    assert!(parse_user_names("").is_empty());
}
