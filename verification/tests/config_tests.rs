use c2s_setup::config::{format_timestamp, join, log_line, LabConfig};

#[test]
fn new_derives_names_from_machine_number() {
    let c = LabConfig::new(7, "someone", None, None);
    assert_eq!(c.machine_number, 7);
    assert_eq!(c.sysadmin_user, "sysadmin3097");
    assert_eq!(c.student_user, "srmist3097");
    assert_eq!(c.hostname_fqdn, "vlsilab7.ist.srmtrichy.edu.in");
    assert_eq!(c.state.len(), 0);
    let c = LabConfig::new(20, "", None, None);
    assert_eq!(c.sysadmin_user, "sysadmin30920");
}

#[test]
fn load_from_state_requires_machine_number() {
    assert!(LabConfig::load_from_state("").is_none());
    assert!(LabConfig::load_from_state("SCRIPT_DIR=/x\n").is_none());
    assert!(LabConfig::load_from_state("MACHINE_NUMBER=abc\n").is_none());
    assert!(LabConfig::load_from_state("MACHINE_NUMBER=300\n").is_none());
}

#[test]
fn load_from_state_defaults_missing_names() {
    let c = LabConfig::load_from_state("MACHINE_NUMBER = 12\nHOSTNAME=custom.host\n").unwrap();
    assert_eq!(c.machine_number, 12);
    assert_eq!(c.sysadmin_user, "sysadmin30912");
    assert_eq!(c.student_user, "srmist30912");
    assert_eq!(c.hostname_fqdn, "custom.host");
    assert_eq!(c.state.get("HOSTNAME"), Some("custom.host".to_string()));
}

#[test]
fn saved_machine_number_loads_back() {
    let mut c = LabConfig::new(5, "", None, None);
    let _ = c.save_state_key("SCRIPT_DIR", "/srv/setup");
    let content = c.save_state_key("MACHINE_NUMBER", "5");
    let back = LabConfig::load_from_state(&content).unwrap();
    assert_eq!(back.machine_number, 5);
    assert_eq!(back.state.get("SCRIPT_DIR"), Some("/srv/setup".to_string()));
    assert_eq!(back.state_file_content(), content);
}

#[test]
fn script_and_tool_dirs() {
    let mut c = LabConfig::new(1, "", None, None);
    assert_eq!(c.get_script_dir(Some("/cwd")), "/cwd");
    assert_eq!(c.get_script_dir(None), ".");
    assert_eq!(c.get_tool_dir(None, "XILINX"), "./XILINX");
    let _ = c.save_state_key("SCRIPT_DIR", "/media/usb/");
    assert_eq!(c.get_root_dir(Some("/cwd")), "/media/usb/");
    assert_eq!(c.get_tool_dir(Some("/cwd"), "CADENCE"), "/media/usb/CADENCE");
}

#[test]
fn join_like_pathbuf() {
    for (base, p) in [("/a", "b"), ("/a/", "b"), ("", "b"), ("/a", "/abs"), ("/a", ""), ("rel", "x/y")] {
        let expected = std::path::Path::new(base).join(p);
        assert_eq!(join(base, p), expected.to_str().unwrap(), "{:?} {:?}", base, p);
    }
}

#[test]
fn phases_are_recorded() {
    let mut c = LabConfig::new(3, "", None, None);
    assert!(!c.is_phase_done("XILINX"));
    assert_eq!(c.phase_time("XILINX"), None);
    let done = c.mark_phase_done("XILINX", "2025-05-06 07:08:09");
    assert!(c.is_phase_done("XILINX"));
    assert_eq!(c.phase_time("XILINX"), Some("2025-05-06 07:08:09".to_string()));
    assert_eq!(done.state_content, "XILINX=DONE\nXILINX_TIME=2025-05-06 07:08:09\n");
    assert_eq!(done.log_line, "2025-05-06 07:08:09 - [INFO] Phase complete: XILINX\n");
    let _ = c.save_state_key("CADENCE", "PENDING");
    assert!(!c.is_phase_done("CADENCE"));
}

#[test]
fn marked_state_reads_back() {
    let mut c = LabConfig::new(3, "", Some("MACHINE_NUMBER=3\n"), Some("/srv"));
    let done = c.mark_phase_done("CADRE", "2025-01-02 03:04:05");
    let back = LabConfig::load_from_state(&done.state_content).unwrap();
    assert!(back.is_phase_done("CADRE"));
    assert_eq!(back.phase_time("CADRE"), Some("2025-01-02 03:04:05".to_string()));
    assert_eq!(back.state.get("SCRIPT_DIR"), Some("/srv".to_string()));
}

#[test]
fn new_reads_state_and_records_script_dir() {
    let c = LabConfig::new(2, "x", Some("# note\nXILINX = DONE\nSCRIPT_DIR=/old\n"), Some("/new"));
    assert_eq!(c.state.get("XILINX"), Some("DONE".to_string()));
    assert_eq!(c.state.get("SCRIPT_DIR"), Some("/new".to_string()));
    assert_eq!(c.state.len(), 2);
    let c = LabConfig::new(2, "x", Some("A=1\n"), None);
    assert_eq!(c.state.get("SCRIPT_DIR"), None);
    assert_eq!(c.state_file_content(), "A=1\n");
    let c = LabConfig::new(2, "x", None, Some("/cwd"));
    assert_eq!(c.state_file_content(), "SCRIPT_DIR=/cwd\n");
}

#[test]
fn log_lines() {
    assert_eq!(log_line("T", "msg"), "T - msg\n");
    let c = LabConfig::new(1, "", None, None);
    assert_eq!(c.append_log("hello", "2025-01-01 00:00:00"), "2025-01-01 00:00:00 - hello\n");
}

#[test]
fn machine_state_file_name() {
    assert_eq!(LabConfig::new(14, "", None, None).machine_state_file_name(), "machine_14.state");
}

#[test]
fn timestamps_are_zero_padded() {
    assert_eq!(format_timestamp(2025, 3, 7, 9, 5, 0), "2025-03-07 09:05:00");
    assert_eq!(format_timestamp(987, 12, 31, 23, 59, 59), "0987-12-31 23:59:59");
    let t = format_timestamp(2024, 1, 2, 3, 4, 5);
    assert_eq!(t.len(), 19);
    let mut c = LabConfig::new(1, "", None, None);
    let done = c.mark_phase_done("SILVACO_1", &t);
    let back = LabConfig::load_from_state(&format!("MACHINE_NUMBER=1\n{}", done.state_content)).unwrap();
    assert_eq!(back.phase_time("SILVACO_1"), Some(t));
}
