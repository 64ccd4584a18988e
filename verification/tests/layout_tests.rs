use c2s_setup::app::{Focus, InputMode};
use c2s_setup::layout::{
    footer_text, log_kind, log_view_lines, main_menu_items, port_status_label, prompt_labels,
    prompt_text, scroll_offset, status_mark, sub_menu_items, tool_details, LogKind,
};
use c2s_setup::validation::ValidationState;

#[test]
fn menus() {
    assert_eq!(main_menu_items().len(), 7);
    assert_eq!(main_menu_items()[3], " 3. EDA Tools Setup ");
    assert_eq!(sub_menu_items(3).len(), 8);
    assert_eq!(sub_menu_items(3)[7], " Cadre - Recreate Env ");
    assert_eq!(sub_menu_items(5), vec![" [ Add New Lab User ] "]);
    assert!(sub_menu_items(9).is_empty());
}

#[test]
fn footers() {
    assert_eq!(footer_text(Focus::LogStream, true, true), " Task is running... Please wait ");
    assert_eq!(footer_text(Focus::LogStream, false, true), " [Task Complete] Press [Esc] to return ");
    assert_eq!(footer_text(Focus::LogStream, false, false), " ");
    assert!(footer_text(Focus::MainMenu, true, true).starts_with("Use [↑/↓/←/→]"));
}

#[test]
fn prompts() {
    assert!(prompt_labels(InputMode::Normal).is_none());
    assert_eq!(prompt_labels(InputMode::MachineConfigPrompt).unwrap().0, " Set Machine Number ");
    assert_eq!(prompt_text("Say:", "ab"), "\nSay:\n\n> ab_");
}

#[test]
fn log_kinds() {
    assert_eq!(log_kind("[ERROR] x [WARN]"), LogKind::Error);
    assert_eq!(log_kind("[WARN] y"), LogKind::Warning);
    assert_eq!(log_kind(" [TASK COMPLETE] Press"), LogKind::Complete);
    assert_eq!(log_kind("plain"), LogKind::Plain);
}

#[test]
fn log_view_and_scroll() {
    let logs = vec!["a".to_string()];
    assert_eq!(log_view_lines(&logs, true, true), logs);
    let v = log_view_lines(&logs, false, true);
    assert_eq!(v.len(), 5);
    assert_eq!(v[3], " [TASK COMPLETE] Press [Esc] to return to the menu ");
    assert_eq!(scroll_offset(10, 5), 7);
    assert_eq!(scroll_offset(3, 5), 0);
    assert_eq!(scroll_offset(4, 1), 4);
    assert_eq!(scroll_offset(70000, 2), 70000usize as u16);
}

#[test]
fn marks() {
    assert_eq!(status_mark(true), "✔");
    assert_eq!(status_mark(false), "✖");
    assert_eq!(port_status_label(None), "? UNKNOWN");
    assert_eq!(port_status_label(Some(false)), "✖ DOWN");
}

#[test]
fn details_of_tool_entries() {
    let mut v = ValidationState::new();
    v.record(vec![], vec![], vec![("CADRE".to_string(), true)], vec![("cadre".to_string(), false), ("Cadre".to_string(), true)], vec![]);
    let d = tool_details(7, &v);
    assert_eq!(d.tool_name, "Cadre");
    assert_eq!(d.action, "Recreate Environment");
    assert!(d.bin_installed);
    assert!(!d.env_installed);
    let d = tool_details(0, &v);
    assert_eq!(d.tool_name, "Xilinx");
    assert_eq!(d.action, "Install Binary");
    assert!(!d.bin_installed);
}
