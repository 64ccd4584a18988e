use c2s_setup::app::{Action, App, EdaTool, Focus, InputMode, Key};
use c2s_setup::config::LabConfig;
use c2s_setup::users::UserStatus;

fn status(exists: bool, bashrc: bool) -> UserStatus {
    UserStatus { exists, bashrc_configured: bashrc }
}

fn app() -> App {
    App::new(LabConfig::new(4, "admin", None, None), status(true, false), status(false, false))
}

fn type_text(app: &mut App, text: &str) {
    for c in text.chars() {
        assert_eq!(app.handle_key(Key::Char(c)), Action::Nothing);
    }
}

#[test]
fn as_str_labels() {
    assert_eq!(EdaTool::Xilinx.as_str(), "Xilinx");
    assert_eq!(EdaTool::Cadence.as_str(), "Cadence");
    assert_eq!(EdaTool::Silvaco.as_str(), "Silvaco");
    assert_eq!(EdaTool::Cadre.as_str(), "CADRE");
}

#[test]
fn new_app_state() {
    let a = app();
    assert_eq!(a.focus, Focus::MainMenu);
    assert_eq!(a.main_menu_selected, Some(0));
    assert_eq!(a.sub_menu_selected, Some(0));
    assert_eq!(a.input_mode, InputMode::Normal);
    assert_eq!(a.logs, vec!["[INFO] VLSI Lab Ratatui Setup Tool initialized.".to_string()]);
    assert_eq!(a.users_list.len(), 2);
    assert_eq!(a.users_list[0].username, "sysadmin3094");
    assert_eq!(a.users_list[0].role, "Sysadmin");
    assert_eq!(a.users_list[0].identifier, "SYSADMIN");
    assert!(a.users_list[0].exists);
    assert_eq!(a.users_list[1].username, "srmist3094");
    assert_eq!(a.users_list[1].identifier, "STUDENT-4");
    assert!(!a.users_list[1].exists);
    assert!(!a.is_busy());
}

#[test]
fn menu_navigation_clamps() {
    let mut a = app();
    a.handle_key(Key::Up);
    assert_eq!(a.main_menu_selected, Some(0));
    for _ in 0..10 {
        a.handle_key(Key::Down);
    }
    assert_eq!(a.main_menu_selected, Some(6));
    assert_eq!(a.current_main_menu_max_idx(), 6);
    a.handle_key(Key::Up);
    a.handle_key(Key::Up);
    a.handle_key(Key::Up);
    assert_eq!(a.main_menu_selected, Some(3));
    assert_eq!(a.current_sub_menu_max_idx(), 7);
    a.handle_key(Key::Right);
    assert_eq!(a.focus, Focus::SubMenu);
    for _ in 0..20 {
        a.handle_key(Key::Down);
    }
    assert_eq!(a.sub_menu_selected, Some(7));
    a.handle_key(Key::Esc);
    assert_eq!(a.focus, Focus::MainMenu);
    assert_eq!(a.sub_menu_selected, Some(0));
}

#[test]
fn tool_entries_start_tasks() {
    let mut a = app();
    for _ in 0..3 {
        a.handle_key(Key::Down);
    }
    a.handle_key(Key::Enter);
    assert_eq!(a.focus, Focus::SubMenu);
    for _ in 0..5 {
        a.handle_key(Key::Down);
    }
    let act = a.handle_key(Key::Enter);
    assert_eq!(act, Action::RecreateEnv(EdaTool::Silvaco));
    assert_eq!(a.focus, Focus::LogStream);
    assert!(a.is_busy());
    a.handle_key(Key::Esc);
    assert_eq!(a.focus, Focus::MainMenu);
    a.handle_key(Key::Right);
    a.handle_key(Key::Up);
    let act = a.handle_key(Key::Enter);
    assert_eq!(act, Action::InstallTool(EdaTool::Silvaco));
}

#[test]
fn sub_menu_execute_per_entry() {
    let expected = [
        Action::RefreshValidation,
        Action::RunPreinstall,
        Action::Nothing,
        Action::InstallTool(EdaTool::Xilinx),
        Action::RefreshNetwork,
        Action::Nothing,
        Action::Nothing,
    ];
    for (i, want) in expected.iter().enumerate() {
        let mut a = app();
        a.main_menu_selected = Some(i);
        a.focus = Focus::SubMenu;
        assert_eq!(&a.handle_sub_menu_execute(), want, "entry {}", i);
        match i {
            5 => assert_eq!(a.input_mode, InputMode::AddUserPrompt),
            6 => assert_eq!(a.focus, Focus::LogStream),
            _ => {}
        }
    }
}

#[test]
fn quit_only_in_normal_mode() {
    let mut a = app();
    a.handle_key(Key::Char('p'));
    assert_eq!(a.input_mode, InputMode::DependencyPrompt);
    assert_eq!(a.handle_key(Key::Char('q')), Action::Nothing);
    assert_eq!(a.input_buffer, "q");
    a.handle_key(Key::Esc);
    assert_eq!(a.input_buffer, "");
    assert_eq!(a.input_mode, InputMode::Normal);
    assert_eq!(a.handle_key(Key::Char('q')), Action::Quit);
}

#[test]
fn typing_then_backspace_restores_buffer() {
    let mut a = app();
    a.handle_key(Key::Char('m'));
    type_text(&mut a, "1");
    a.handle_key(Key::Char('x'));
    a.handle_key(Key::Backspace);
    assert_eq!(a.input_buffer, "1");
    a.handle_key(Key::Backspace);
    a.handle_key(Key::Backspace);
    assert_eq!(a.input_buffer, "");
}

#[test]
fn machine_prompt_accepts_1_to_20() {
    for (input, want) in [
        (" 12 ", Action::ChangeMachine(12)),
        ("+3", Action::ChangeMachine(3)),
        ("0", Action::Nothing),
        ("21", Action::Nothing),
        ("x", Action::Nothing),
        ("", Action::Nothing),
    ] {
        let mut a = app();
        a.handle_key(Key::Char('m'));
        type_text(&mut a, input);
        assert_eq!(a.handle_key(Key::Enter), want, "input {:?}", input);
        assert_eq!(a.input_mode, InputMode::Normal);
        assert_eq!(a.input_buffer, "");
    }
}

#[test]
fn add_user_prompt_formats() {
    let mut a = app();
    a.main_menu_selected = Some(5);
    a.handle_key(Key::Char('a'));
    assert_eq!(a.input_mode, InputMode::AddUserPrompt);
    type_text(&mut a, " alice , Faculty , FET42 ");
    let act = a.handle_key(Key::Enter);
    assert_eq!(
        act,
        Action::AddUser {
            username: "alice".to_string(),
            role: "Faculty".to_string(),
            identifier: "FET42".to_string()
        }
    );
    assert!(a.is_busy());
    assert_eq!(a.focus, Focus::LogStream);

    let mut a = app();
    a.input_mode = InputMode::AddUserPrompt;
    type_text(&mut a, "bob");
    assert_eq!(
        a.handle_add_user_submit(),
        Action::AddUser {
            username: "bob".to_string(),
            role: "Student".to_string(),
            identifier: "REG-DEFAULT".to_string()
        }
    );

    let mut a = app();
    a.input_mode = InputMode::AddUserPrompt;
    type_text(&mut a, "a,b");
    assert_eq!(
        a.handle_add_user_submit(),
        Action::Log("[ERROR] Invalid user format. Use: USERNAME,ROLE,REGISTER_NO".to_string())
    );
    assert!(!a.is_busy());

    let mut a = app();
    a.input_mode = InputMode::AddUserPrompt;
    type_text(&mut a, "   ");
    assert_eq!(a.handle_add_user_submit(), Action::Nothing);
    assert_eq!(a.input_mode, InputMode::Normal);
}

#[test]
fn a_opens_user_prompt_only_on_users_entry() {
    let mut a = app();
    a.handle_key(Key::Char('a'));
    assert_eq!(a.input_mode, InputMode::Normal);
}

#[test]
fn dependency_prompt() {
    let mut a = app();
    a.handle_key(Key::Char('p'));
    type_text(&mut a, "  libpng12.so.0 ");
    assert_eq!(a.handle_dependency_submit(), Action::ResolveDependency("libpng12.so.0".to_string()));
    assert!(a.is_busy());
}

#[test]
fn tick_refreshes_after_task() {
    let mut a = app();
    assert!(!a.on_tick(false));
    assert!(!a.is_busy());
    assert_eq!(a.handle_key(Key::Char('x')), Action::InstallTool(EdaTool::Xilinx));
    assert!(a.is_busy());
    assert!(!a.on_tick(true));
    assert!(a.is_busy());
    assert!(a.on_tick(false));
    assert!(!a.is_busy());
    assert!(!a.on_tick(false));
    assert_eq!(a.tick_count, 4);
    a.tick_count = u64::MAX;
    a.on_tick(false);
    assert_eq!(a.tick_count, 0);
}

#[test]
fn finishing_the_task_clears_busy() {
    let mut a = app();
    a.handle_key(Key::Char('0'));
    assert!(a.is_busy());
    for k in [Key::Esc, Key::Up, Key::Down, Key::Enter, Key::Char('m'), Key::Esc, Key::Char('u')] {
        a.handle_key(k);
        assert!(a.is_busy());
    }
    a.task_finished();
    assert!(!a.is_busy());
}

#[test]
fn quick_action_keys() {
    let mut a = app();
    assert_eq!(a.handle_key(Key::Char('0')), Action::RunPreinstall);
    assert_eq!(a.focus, Focus::LogStream);
    assert_eq!(a.handle_key(Key::Char('c')), Action::InstallTool(EdaTool::Cadence));
    assert_eq!(a.handle_key(Key::Char('s')), Action::InstallTool(EdaTool::Silvaco));
    assert_eq!(a.handle_key(Key::Char('v')), Action::InstallTool(EdaTool::Cadre));
    assert_eq!(a.handle_key(Key::Char('u')), Action::Nothing);
    assert_eq!(a.focus, Focus::MainMenu);
    assert_eq!(a.main_menu_selected, Some(5));
    assert_eq!(a.sub_menu_selected, Some(0));
    assert_eq!(a.handle_key(Key::Char('a')), Action::Nothing);
    assert_eq!(a.input_mode, InputMode::AddUserPrompt);
    assert_eq!(a.handle_key(Key::Char('x')), Action::Nothing);
    assert_eq!(a.input_buffer, "x");
}

#[test]
fn machine_change_records_and_relists() {
    let mut a = app();
    let change = a.apply_machine_config(LabConfig::new(9, "", None, None), status(true, true), status(true, true));
    assert_eq!(change.state_content, "MACHINE_NUMBER=9\n");
    assert_eq!(change.message, "[CONFIG] Machine updated to #9 (vlsilab9.ist.srmtrichy.edu.in)");
    assert_eq!(a.config.machine_number, 9);
    assert_eq!(a.users_list[1].username, "srmist3099");
    assert!(a.users_list[1].bashrc_configured);
}

#[test]
fn add_log_appends() {
    let mut a = app();
    a.add_log("[WARN] x".to_string());
    assert_eq!(a.logs.len(), 2);
    assert_eq!(a.logs[1], "[WARN] x");
}

#[test]
fn key_presses_never_clear_busy() {
    let mut a = app();
    a.main_menu_selected = Some(1);
    a.focus = Focus::SubMenu;
    assert_eq!(a.handle_key(Key::Enter), Action::RunPreinstall);
    for k in [Key::Esc, Key::Up, Key::Down, Key::Right, Key::Left, Key::Char('x'), Key::Other] {
        a.handle_key(k);
        assert!(a.is_busy());
    }
}

#[test]
fn arrows_leave_prompt_and_buffer_alone() {
    let mut a = app();
    a.handle_key(Key::Char('p'));
    type_text(&mut a, "gcc");
    for k in [Key::Up, Key::Down, Key::Left, Key::Right] {
        assert_eq!(a.handle_key(k), Action::Nothing);
        assert_eq!(a.input_mode, InputMode::DependencyPrompt);
        assert_eq!(a.input_buffer, "gcc");
    }
}
