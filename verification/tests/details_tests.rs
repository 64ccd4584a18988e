use c2s_setup::details::{
    apps_lines, dashboard_lines, network_lines, packages_lines, tool_lines, user_lines, DetailLine, LineStyle,
};
use c2s_setup::network::NetworkState;
use c2s_setup::users::LabUser;
use c2s_setup::validation::ValidationState;

fn texts(v: &[DetailLine]) -> Vec<(&str, LineStyle)> {
    v.iter().map(|l| (l.text.as_str(), l.style)).collect()
}

#[test]
fn dashboard_pane() {
    let mut v = ValidationState::new();
    let lines = dashboard_lines(&v);
    assert_eq!(texts(&lines)[0], ("--- Installed EDA Tools ---", LineStyle::Heading));
    assert_eq!(texts(&lines)[1], (" Xilinx: ✖", LineStyle::Plain));
    assert_eq!(texts(&lines)[6], ("--- Configured Users (.bashrc) ---", LineStyle::Heading));
    assert_eq!(texts(&lines)[7], (" No users found or checking...", LineStyle::Plain));
    assert_eq!(lines.len(), 8);
    v.configured_users = vec![("srmist3091".to_string(), true)];
    let lines = dashboard_lines(&v);
    assert_eq!(texts(&lines)[7], (" srmist3091: ✔", LineStyle::Plain));
}

#[test]
fn package_and_app_panes() {
    let mut v = ValidationState::new();
    v.prereqs_details = vec![("gcc".to_string(), true), ("libXp".to_string(), false)];
    v.apps_details = vec![("AnyDesk".to_string(), false)];
    let p = packages_lines(&v);
    assert_eq!(p.len(), 4);
    assert_eq!(p[2].text, " gcc [✔]");
    assert_eq!(p[3].text, " libXp [✖]");
    let a = apps_lines(&v);
    assert_eq!(texts(&a), vec![("Essential Apps Status:", LineStyle::Heading), (" AnyDesk [✖]", LineStyle::Plain)]);
}

#[test]
fn tool_pane() {
    let mut v = ValidationState::new();
    v.tool_binary_status[1].1 = true;
    let t = tool_lines(2, &v);
    assert_eq!(t[0].text, "Tool: Cadence");
    assert_eq!(t[0].style, LineStyle::Title);
    assert_eq!(t[1].text, "Binary Present: ✔");
    assert_eq!(t[2].text, "Environment Script: ✖");
    assert_eq!(t[4].text, "Selected Action: Install Binary");
    assert_eq!(t[4].style, LineStyle::Highlight);
    let t = tool_lines(7, &v);
    assert_eq!(t[0].text, "Tool: Cadre");
    assert_eq!(t[5].text, "Generates the wrapper scripts in /opt/vlsilab/env.");
    assert_eq!(t.len(), 7);
}

#[test]
fn network_pane() {
    let mut n = NetworkState::new();
    n.private_ip = Some("10.0.0.5".to_string());
    n.set_port_result(0, true);
    let l = network_lines(&n);
    assert_eq!(l[1].text, "  Private IP: 10.0.0.5");
    assert_eq!(l[2].text, "  Default Gateway: Unknown");
    assert_eq!((l[4].text.as_str(), l[4].style), ("Port Checks:", LineStyle::Heading));
    assert!(l[5].text.ends_with(": ✔ UP"));
    assert!(l[6].text.ends_with(": ? UNKNOWN"));
    assert_eq!(l.len(), 5 + n.port_checks.len());
}

#[test]
fn users_pane() {
    let users = vec![LabUser {
        username: "srmist3094".to_string(),
        role: "Student".to_string(),
        identifier: "STUDENT-4".to_string(),
        exists: true,
        bashrc_configured: false,
    }];
    let l = user_lines(&users);
    assert_eq!(texts(&l), vec![
        ("Current Lab Users:", LineStyle::Heading),
        (" srmist3094 (Student) - .bashrc: ✖", LineStyle::Plain),
    ]);
}
