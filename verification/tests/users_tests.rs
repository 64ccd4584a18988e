use c2s_setup::users::{account_comment, bashrc_has_launcher, bashrc_path, bashrc_update, useradd_args};

#[test]
fn bashrc_paths_and_checks() {
    assert_eq!(bashrc_path("srmist3091"), "/home/srmist3091/.bashrc");
    assert!(bashrc_has_launcher("x\nsource /opt/vlsilab/eda-launcher.sh\n"));
    assert!(!bashrc_has_launcher("# nothing"));
}

#[test]
fn bashrc_update_is_idempotent() {
    let updated = bashrc_update("alias ll='ls -l'\n").unwrap();
    assert!(updated.starts_with("alias ll='ls -l'\n"));
    assert!(updated.ends_with("    source /opt/vlsilab/eda-launcher.sh\nfi\n"));
    assert!(bashrc_has_launcher(&updated));
    assert_eq!(bashrc_update(&updated), None);
}

#[test]
fn account_arguments() {
    assert_eq!(account_comment("Student", "RA21"), "VLSI Lab Student [RA21]");
    assert_eq!(useradd_args("bob", "Faculty", "FET1"), vec!["-m", "-s", "/bin/bash", "-c", "VLSI Lab Faculty [FET1]", "bob"]);
}
