use c2s_setup::flows::{
    CadenceCmd, CadenceEvent, CadenceFailure, CadenceInstall, GtarCmd, GtarEnd, GtarEvent, GtarInstall,
    ProvisionCmd, ProvisionEnd, ProvisionEvent, UserProvisioning,
};

fn names(v: &[&str]) -> Vec<String> {
    v.iter().map(|s| s.to_string()).collect()
}

#[test]
fn provisioning_creates_missing_account_and_configures_bashrc() {
    let (mut p, cmd) = UserProvisioning::new("alice", "Faculty", "FET01");
    assert!(matches!(cmd, ProvisionCmd::ProbeAccount));
    match p.step(ProvisionEvent::AccountExists(false)) {
        ProvisionCmd::CreateAccount(args) => {
            assert_eq!(args, names(&["-m", "-s", "/bin/bash", "-c", "VLSI Lab Faculty [FET01]", "alice"]))
        }
        _ => panic!("expected useradd"),
    }
    assert!(matches!(p.step(ProvisionEvent::AccountCreated(true)), ProvisionCmd::ProbeBashrc));
    assert!(matches!(
        p.step(ProvisionEvent::Bashrc { present: true, configured: false }),
        ProvisionCmd::ReadBashrc
    ));
    match p.step(ProvisionEvent::BashrcRead(Some("alias ll='ls -l'\n".to_string()))) {
        ProvisionCmd::WriteBashrc(c) => {
            assert!(c.starts_with("alias ll='ls -l'\n"));
            assert!(c.contains("source /opt/vlsilab/eda-launcher.sh"));
        }
        _ => panic!("expected a write"),
    }
    assert!(matches!(p.step(ProvisionEvent::BashrcWritten(true)), ProvisionCmd::Finish(ProvisionEnd::Configured)));
    assert!(matches!(p.step(ProvisionEvent::AccountExists(true)), ProvisionCmd::Ignore));
}

#[test]
fn provisioning_other_endings() {
    let (mut p, _) = UserProvisioning::new("bob", "Student", "REG-DEFAULT");
    assert!(matches!(p.step(ProvisionEvent::AccountExists(true)), ProvisionCmd::ProbeBashrc));
    assert!(matches!(
        p.step(ProvisionEvent::Bashrc { present: true, configured: true }),
        ProvisionCmd::Finish(ProvisionEnd::AlreadyConfigured)
    ));

    let (mut p, _) = UserProvisioning::new("bob", "Student", "X");
    p.step(ProvisionEvent::AccountExists(true));
    assert!(matches!(
        p.step(ProvisionEvent::Bashrc { present: false, configured: false }),
        ProvisionCmd::Finish(ProvisionEnd::BashrcMissing)
    ));

    let (mut p, _) = UserProvisioning::new("bob", "Student", "X");
    p.step(ProvisionEvent::AccountExists(false));
    assert!(matches!(p.step(ProvisionEvent::AccountCreated(false)), ProvisionCmd::Finish(ProvisionEnd::UseraddFailed)));

    let (mut p, _) = UserProvisioning::new("bob", "Student", "X");
    p.step(ProvisionEvent::AccountExists(true));
    p.step(ProvisionEvent::Bashrc { present: true, configured: false });
    assert!(matches!(p.step(ProvisionEvent::BashrcRead(None)), ProvisionCmd::Finish(ProvisionEnd::BashrcUnreadable)));

    let (mut p, _) = UserProvisioning::new("bob", "Student", "X");
    p.step(ProvisionEvent::AccountExists(true));
    p.step(ProvisionEvent::Bashrc { present: true, configured: false });
    p.step(ProvisionEvent::BashrcRead(Some(String::new())));
    assert!(matches!(p.step(ProvisionEvent::BashrcWritten(false)), ProvisionCmd::Finish(ProvisionEnd::WriteFailed)));
}

#[test]
fn cadence_extracts_in_name_order_and_counts() {
    let (mut c, cmd) = CadenceInstall::new();
    assert!(matches!(cmd, CadenceCmd::CheckTools));
    assert!(matches!(c.step(CadenceEvent::ToolsDir(true)), CadenceCmd::MakeDest));
    assert!(matches!(c.step(CadenceEvent::DestMade(true)), CadenceCmd::UnpackGtar));
    assert!(matches!(c.step(CadenceEvent::GtarDone), CadenceCmd::ListFiles));
    let listing = names(&["SPECTRE.tar.gz", "notes.txt", "IC.tar.gz", "X.gtar"]);
    match c.step(CadenceEvent::Listed(Some(listing))) {
        CadenceCmd::Extract { file_name, tool_name } => {
            assert_eq!(file_name, "IC.tar.gz");
            assert_eq!(tool_name, "IC");
        }
        _ => panic!("expected an extraction"),
    }
    match c.step(CadenceEvent::Extracted(true)) {
        CadenceCmd::Extract { file_name, tool_name } => {
            assert_eq!(file_name, "SPECTRE.tar.gz");
            assert_eq!(tool_name, "SPECTRE");
        }
        _ => panic!("expected an extraction"),
    }
    match c.step(CadenceEvent::Extracted(false)) {
        CadenceCmd::Finish { installed, failed, none_found } => {
            assert_eq!((installed, failed, none_found), (1, 1, false));
        }
        _ => panic!("expected the end of the pass"),
    }
}

#[test]
fn cadence_failures_and_empty_folder() {
    let (mut c, _) = CadenceInstall::new();
    assert!(matches!(c.step(CadenceEvent::ToolsDir(false)), CadenceCmd::Fail(CadenceFailure::ToolsDirMissing)));

    let (mut c, _) = CadenceInstall::new();
    c.step(CadenceEvent::ToolsDir(true));
    assert!(matches!(c.step(CadenceEvent::DestMade(false)), CadenceCmd::Fail(CadenceFailure::DestNotMade)));

    let (mut c, _) = CadenceInstall::new();
    c.step(CadenceEvent::ToolsDir(true));
    c.step(CadenceEvent::DestMade(true));
    assert!(matches!(c.step(CadenceEvent::Listed(None)), CadenceCmd::Ignore));
    c.step(CadenceEvent::GtarDone);
    assert!(matches!(c.step(CadenceEvent::Listed(None)), CadenceCmd::Fail(CadenceFailure::ListingFailed)));

    let (mut c, _) = CadenceInstall::new();
    c.step(CadenceEvent::ToolsDir(true));
    c.step(CadenceEvent::DestMade(true));
    c.step(CadenceEvent::GtarDone);
    assert!(matches!(
        c.step(CadenceEvent::Listed(Some(names(&["readme.txt"])))),
        CadenceCmd::Finish { installed: 0, failed: 0, none_found: true }
    ));
}

#[test]
fn gtar_unpacks_into_its_own_folder() {
    let (mut g, cmd) = GtarInstall::new("INNOVUS.tar.gz.gtar");
    match cmd {
        GtarCmd::CheckDest(t) => assert_eq!(t, "INNOVUS"),
        _ => panic!("expected a destination check"),
    }
    match g.step(GtarEvent::DestExists(false)) {
        GtarCmd::PrepareScratch(s) => assert_eq!(s, "cadence_gtar_extract_INNOVUS"),
        _ => panic!("expected a scratch folder"),
    }
    assert!(matches!(g.step(GtarEvent::ScratchReady(true)), GtarCmd::ExtractToScratch));
    assert!(matches!(g.step(GtarEvent::Extracted(true)), GtarCmd::FindPayload));
    assert!(matches!(g.step(GtarEvent::PayloadFound), GtarCmd::MakeDest));
    assert!(matches!(g.step(GtarEvent::DestMade(true)), GtarCmd::MoveEntries));
    assert!(matches!(
        g.step(GtarEvent::Moved(3)),
        GtarCmd::Finish { end: GtarEnd::Installed, moved: 3, cleanup: true }
    ));
}

#[test]
fn gtar_skips_and_failures() {
    assert!(matches!(
        GtarInstall::new("plain.gtar").1,
        GtarCmd::CheckDest(_)
    ));
    assert!(matches!(
        GtarInstall::new(".gtar").1,
        GtarCmd::Finish { end: GtarEnd::NoTarget, cleanup: false, .. }
    ));
    let (mut g, _) = GtarInstall::new("A.tgz.gtar");
    assert!(matches!(
        g.step(GtarEvent::DestExists(true)),
        GtarCmd::Finish { end: GtarEnd::AlreadyThere, cleanup: false, .. }
    ));
    let (mut g, _) = GtarInstall::new("A.tgz.gtar");
    g.step(GtarEvent::DestExists(false));
    assert!(matches!(
        g.step(GtarEvent::ScratchReady(false)),
        GtarCmd::Finish { end: GtarEnd::ScratchFailed, cleanup: false, .. }
    ));
    let (mut g, _) = GtarInstall::new("A.tgz.gtar");
    g.step(GtarEvent::DestExists(false));
    g.step(GtarEvent::ScratchReady(true));
    assert!(matches!(
        g.step(GtarEvent::Extracted(false)),
        GtarCmd::Finish { end: GtarEnd::ExtractFailed, cleanup: true, .. }
    ));
    let (mut g, _) = GtarInstall::new("A.tgz.gtar");
    g.step(GtarEvent::DestExists(false));
    g.step(GtarEvent::ScratchReady(true));
    g.step(GtarEvent::Extracted(true));
    g.step(GtarEvent::PayloadFound);
    assert!(matches!(
        g.step(GtarEvent::DestMade(false)),
        GtarCmd::Finish { end: GtarEnd::DestFailed, cleanup: true, .. }
    ));
    let (mut g, _) = GtarInstall::new("A.tgz.gtar");
    g.step(GtarEvent::DestExists(false));
    g.step(GtarEvent::ScratchReady(true));
    g.step(GtarEvent::Extracted(true));
    g.step(GtarEvent::PayloadFound);
    g.step(GtarEvent::DestMade(true));
    assert!(matches!(
        g.step(GtarEvent::Moved(0)),
        GtarCmd::Finish { end: GtarEnd::NothingMoved, moved: 0, cleanup: true }
    ));
}
