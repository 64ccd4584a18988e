//! The dashboard's state machine: what each key press does to the menus,
//! the prompts and the input line, and which background task it starts.
//! The terminal, the task runner and the probes of the system stay outside;
//! they hand the decisions here plain events and carry out the actions.

use vstd::prelude::*;
use crate::config::LabConfig;
use crate::layout::{sub_menu_labels, sub_menu_len};
use crate::state::lemma_trim_trimmed;
use crate::users::{LabUser, UserStatus};
use crate::text::{
    chars_of, parse_u8, parse_u8_chars, push_char, slice_vec, split_chars, split_on, string_of,
    trim, trim_vec, views, with_decimal, decimal, lemma_parse_decimal_u8, lemma_decimal_digits,
    is_ws,
};

verus! {

/// Which pane has the keyboard.
#[derive(Debug, Clone, Copy, PartialEq, Eq, Structural)]
pub enum Focus {
    MainMenu,
    SubMenu,
    LogStream,
}

/// The EDA tool families the installer handles.
#[derive(Debug, Clone, Copy, PartialEq, Eq, Structural)]
pub enum EdaTool {
    Xilinx,
    Cadence,
    Silvaco,
    Cadre,
}

/// What the input line is for.
#[derive(Debug, Clone, Copy, PartialEq, Eq, Structural)]
pub enum InputMode {
    Normal,
    MachineConfigPrompt,
    AddUserPrompt,
    DependencyPrompt,
}

/// A key press, as the dashboard distinguishes them.
#[derive(Debug, Clone, Copy, PartialEq, Eq, Structural)]
pub enum Key {
    Char(char),
    Esc,
    Left,
    Right,
    Up,
    Down,
    Enter,
    Backspace,
    Other,
}

/// What the outside has to carry out after a key press.
#[derive(Debug, Clone, PartialEq, Eq)]
pub enum Action {
    /// Nothing.
    Nothing,
    /// Leave the dashboard.
    Quit,
    /// Add this message to the log.
    Log(String),
    /// Re-run the system validation checks.
    RefreshValidation,
    /// Run the system pre-install in the background.
    RunPreinstall,
    /// Install a tool in the background.
    InstallTool(EdaTool),
    /// Regenerate a tool's environment script in the background.
    RecreateEnv(EdaTool),
    /// Re-run the network diagnostics.
    RefreshNetwork,
    /// Create or configure a lab account in the background.
    AddUser { username: String, role: String, identifier: String },
    /// Resolve and install a missing dependency in the background.
    ResolveDependency(String),
    /// Reconfigure the dashboard for another machine number.
    ChangeMachine(u8),
}

/// [`Action`] with its text as character sequences.
#[verifier::ext_equal]
pub enum ActionView {
    Nothing,
    Quit,
    Log(Seq<char>),
    RefreshValidation,
    RunPreinstall,
    InstallTool(EdaTool),
    RecreateEnv(EdaTool),
    RefreshNetwork,
    AddUser { username: Seq<char>, role: Seq<char>, identifier: Seq<char> },
    ResolveDependency(Seq<char>),
    ChangeMachine(u8),
}

impl View for Action {
    type V = ActionView;

    open spec fn view(&self) -> ActionView {
        match self {
            Action::Nothing => ActionView::Nothing,
            Action::Quit => ActionView::Quit,
            Action::Log(m) => ActionView::Log(m@),
            Action::RefreshValidation => ActionView::RefreshValidation,
            Action::RunPreinstall => ActionView::RunPreinstall,
            Action::InstallTool(t) => ActionView::InstallTool(*t),
            Action::RecreateEnv(t) => ActionView::RecreateEnv(*t),
            Action::RefreshNetwork => ActionView::RefreshNetwork,
            Action::AddUser { username, role, identifier } => ActionView::AddUser {
                username: username@,
                role: role@,
                identifier: identifier@,
            },
            Action::ResolveDependency(q) => ActionView::ResolveDependency(q@),
            Action::ChangeMachine(n) => ActionView::ChangeMachine(*n),
        }
    }
}

/// Whether an action runs in the background.
pub open spec fn is_task(a: ActionView) -> bool {
    match a {
        ActionView::RunPreinstall | ActionView::InstallTool(_) | ActionView::RecreateEnv(_)
        | ActionView::AddUser { .. } | ActionView::ResolveDependency(_) => true,
        _ => false,
    }
}

/// The part of the dashboard that key presses change.
#[verifier::ext_equal]
pub struct Ui {
    pub focus: Focus,
    pub main: Option<usize>,
    pub sub: Option<usize>,
    pub mode: InputMode,
    pub buffer: Seq<char>,
    pub busy: bool,
}

/// The label a tool is shown with.
pub open spec fn tool_label(t: EdaTool) -> Seq<char> {
    match t {
        EdaTool::Xilinx => "Xilinx"@,
        EdaTool::Cadence => "Cadence"@,
        EdaTool::Silvaco => "Silvaco"@,
        EdaTool::Cadre => "CADRE"@,
    }
}

impl EdaTool {
    /// The label the tool is shown with.
    pub fn as_str(&self) -> (s: &'static str)
        ensures
            s@ == tool_label(*self),
    {
        match self {
            EdaTool::Xilinx => "Xilinx",
            EdaTool::Cadence => "Cadence",
            EdaTool::Silvaco => "Silvaco",
            EdaTool::Cadre => "CADRE",
        }
    }
}

/// The largest index of the main menu (Dashboard, Pre-requisites, Apps,
/// EDA Tools, Network, Users, Logs).
pub open spec fn main_menu_max() -> usize {
    6
}

/// The largest index of the actions pane under a main menu entry: the EDA
/// tools entry offers four tools with two actions each, every other entry
/// one action.
pub open spec fn sub_menu_max(main: Option<usize>) -> usize {
    if main == Some(3usize) {
        7
    } else {
        0
    }
}

/// The selection after moving up.
pub open spec fn menu_up(sel: Option<usize>) -> usize {
    match sel {
        Some(i) => if i == 0 {
            0
        } else {
            (i - 1) as usize
        },
        None => 0,
    }
}

/// The selection after moving down, stopping at `max`.
pub open spec fn menu_down(sel: Option<usize>, max: usize) -> usize {
    match sel {
        Some(i) => if i >= max {
            max
        } else {
            (i + 1) as usize
        },
        None => 0,
    }
}

/// The tool of an entry of the EDA tools pane: two entries per tool.
pub open spec fn tool_at(sub: usize) -> EdaTool {
    if sub / 2 == 0 {
        EdaTool::Xilinx
    } else if sub / 2 == 1 {
        EdaTool::Cadence
    } else if sub / 2 == 2 {
        EdaTool::Silvaco
    } else {
        EdaTool::Cadre
    }
}

/// `sel`, or 0 when nothing is selected.
pub open spec fn selected_or_zero(sel: Option<usize>) -> usize {
    match sel {
        Some(i) => i,
        None => 0,
    }
}

/// `u` with the log stream in front and a background task running.
pub open spec fn start_task(u: Ui) -> Ui {
    Ui { focus: Focus::LogStream, busy: true, ..u }
}

/// `u` back in normal mode with an empty input line.
pub open spec fn close_prompt(u: Ui) -> Ui {
    Ui { mode: InputMode::Normal, buffer: Seq::empty(), ..u }
}

/// `u` with a prompt open and an empty input line.
pub open spec fn open_prompt(u: Ui, mode: InputMode) -> Ui {
    Ui { mode, buffer: Seq::empty(), ..u }
}

/// Running the selected entry of the actions pane.
pub open spec fn execute(u: Ui) -> (Ui, ActionView) {
    let main = selected_or_zero(u.main);
    let sub = selected_or_zero(u.sub);
    if main == 0 {
        (u, ActionView::RefreshValidation)
    } else if main == 1 {
        if sub == 0 {
            (start_task(u), ActionView::RunPreinstall)
        } else {
            (u, ActionView::Nothing)
        }
    } else if main == 3 {
        if sub % 2 == 0 {
            (start_task(u), ActionView::InstallTool(tool_at(sub)))
        } else {
            (start_task(u), ActionView::RecreateEnv(tool_at(sub)))
        }
    } else if main == 4 {
        (u, ActionView::RefreshNetwork)
    } else if main == 5 {
        if sub == 0 {
            (open_prompt(u, InputMode::AddUserPrompt), ActionView::Nothing)
        } else {
            (u, ActionView::Nothing)
        }
    } else if main == 6 {
        (Ui { focus: Focus::LogStream, ..u }, ActionView::Nothing)
    } else {
        (u, ActionView::Nothing)
    }
}

/// The account that an "add user" line asks for: `NAME,ROLE,ID` with each
/// field trimmed, or a bare `NAME` for a student with the default ID;
/// any other number of fields is refused.
pub open spec fn user_fields(input: Seq<char>) -> Option<(Seq<char>, Seq<char>, Seq<char>)> {
    let parts = split_on(input, ',');
    if parts.len() == 3 {
        Some((trim(parts[0]), trim(parts[1]), trim(parts[2])))
    } else if parts.len() == 1 {
        Some((trim(parts[0]), "Student"@, "REG-DEFAULT"@))
    } else {
        None
    }
}

/// The message logged for a malformed "add user" line.
pub open spec fn invalid_user_message() -> Seq<char> {
    "[ERROR] Invalid user format. Use: USERNAME,ROLE,REGISTER_NO"@
}

/// Submitting the "add user" prompt.
pub open spec fn submit_user(u: Ui) -> (Ui, ActionView) {
    let input = trim(u.buffer);
    let closed = close_prompt(u);
    if input.len() == 0 {
        (closed, ActionView::Nothing)
    } else {
        match user_fields(input) {
            Some(f) => (
                start_task(closed),
                ActionView::AddUser { username: f.0, role: f.1, identifier: f.2 },
            ),
            None => (closed, ActionView::Log(invalid_user_message())),
        }
    }
}

/// Submitting the dependency prompt.
pub open spec fn submit_dependency(u: Ui) -> (Ui, ActionView) {
    let input = trim(u.buffer);
    let closed = close_prompt(u);
    if input.len() == 0 {
        (closed, ActionView::Nothing)
    } else {
        (start_task(closed), ActionView::ResolveDependency(input))
    }
}

/// Submitting the machine number prompt: a number from 1 to 20 switches
/// the machine; anything else is dropped.
pub open spec fn submit_machine(u: Ui) -> (Ui, ActionView) {
    let closed = close_prompt(u);
    match parse_u8(trim(u.buffer)) {
        Some(n) => if 1 <= n && n <= 20 {
            (closed, ActionView::ChangeMachine(n))
        } else {
            (closed, ActionView::Nothing)
        },
        None => (closed, ActionView::Nothing),
    }
}

/// A key press while a prompt is open.
pub open spec fn prompt_step(u: Ui, k: Key) -> (Ui, ActionView) {
    match k {
        Key::Enter => match u.mode {
            InputMode::MachineConfigPrompt => submit_machine(u),
            InputMode::AddUserPrompt => submit_user(u),
            _ => submit_dependency(u),
        },
        Key::Esc => (close_prompt(u), ActionView::Nothing),
        Key::Char(c) => (Ui { buffer: u.buffer.push(c), ..u }, ActionView::Nothing),
        Key::Backspace => if u.buffer.len() > 0 {
            (Ui { buffer: u.buffer.drop_last(), ..u }, ActionView::Nothing)
        } else {
            (u, ActionView::Nothing)
        },
        _ => (u, ActionView::Nothing),
    }
}

/// A key press in normal mode.
pub open spec fn normal_step(u: Ui, k: Key) -> (Ui, ActionView) {
    match k {
        Key::Char('q') => (u, ActionView::Quit),
        Key::Esc | Key::Left => if u.focus == Focus::LogStream {
            (Ui { focus: Focus::MainMenu, ..u }, ActionView::Nothing)
        } else if u.focus == Focus::SubMenu {
            (Ui { focus: Focus::MainMenu, sub: Some(0usize), ..u }, ActionView::Nothing)
        } else {
            (u, ActionView::Nothing)
        },
        Key::Right => if u.focus == Focus::MainMenu {
            (Ui { focus: Focus::SubMenu, ..u }, ActionView::Nothing)
        } else {
            (u, ActionView::Nothing)
        },
        Key::Up => if u.focus == Focus::MainMenu {
            (Ui { main: Some(menu_up(u.main)), sub: Some(0usize), ..u }, ActionView::Nothing)
        } else if u.focus == Focus::SubMenu {
            (Ui { sub: Some(menu_up(u.sub)), ..u }, ActionView::Nothing)
        } else {
            (u, ActionView::Nothing)
        },
        Key::Down => if u.focus == Focus::MainMenu {
            (
                Ui { main: Some(menu_down(u.main, main_menu_max())), sub: Some(0usize), ..u },
                ActionView::Nothing,
            )
        } else if u.focus == Focus::SubMenu {
            (Ui { sub: Some(menu_down(u.sub, sub_menu_max(u.main))), ..u }, ActionView::Nothing)
        } else {
            (u, ActionView::Nothing)
        },
        Key::Enter => if u.focus == Focus::MainMenu {
            (Ui { focus: Focus::SubMenu, ..u }, ActionView::Nothing)
        } else if u.focus == Focus::SubMenu {
            execute(u)
        } else {
            (u, ActionView::Nothing)
        },
        Key::Char('a') => if u.main == Some(5usize) {
            (open_prompt(u, InputMode::AddUserPrompt), ActionView::Nothing)
        } else {
            (u, ActionView::Nothing)
        },
        Key::Char('m') => (open_prompt(u, InputMode::MachineConfigPrompt), ActionView::Nothing),
        Key::Char('p') => (open_prompt(u, InputMode::DependencyPrompt), ActionView::Nothing),
        Key::Char('0') => (start_task(u), ActionView::RunPreinstall),
        Key::Char('x') => (start_task(u), ActionView::InstallTool(EdaTool::Xilinx)),
        Key::Char('c') => (start_task(u), ActionView::InstallTool(EdaTool::Cadence)),
        Key::Char('s') => (start_task(u), ActionView::InstallTool(EdaTool::Silvaco)),
        Key::Char('v') => (start_task(u), ActionView::InstallTool(EdaTool::Cadre)),
        Key::Char('u') => (
            Ui { focus: Focus::MainMenu, main: Some(5usize), sub: Some(0usize), ..u },
            ActionView::Nothing,
        ),
        _ => (u, ActionView::Nothing),
    }
}

/// `u` once the background task has finished.
pub open spec fn finish_task(u: Ui) -> Ui {
    Ui { busy: false, ..u }
}

/// The dashboard after a run of key presses.
pub open spec fn run_keys(u: Ui, keys: Seq<Key>) -> Ui
    decreases keys.len(),
{
    if keys.len() == 0 {
        u
    } else {
        step(run_keys(u, keys.drop_last()), keys.last()).0
    }
}

/// What a key press does to the dashboard, and what it asks the outside to do.
pub open spec fn step(u: Ui, k: Key) -> (Ui, ActionView) {
    if u.mode == InputMode::Normal {
        normal_step(u, k)
    } else {
        prompt_step(u, k)
    }
}

/// Both menus have a selection, each within its pane.
pub open spec fn ui_wf(u: Ui) -> bool {
    &&& u.main matches Some(i) && i <= main_menu_max()
    &&& u.sub matches Some(j) && j <= sub_menu_max(u.main)
}

/// What switching machines produced: the state file to write and the
/// message to log.
pub struct MachineChange {
    pub state_content: String,
    pub message: String,
}

/// The dashboard's state.
pub struct App {
    pub config: LabConfig,
    pub focus: Focus,
    pub main_menu_selected: Option<usize>,
    pub sub_menu_selected: Option<usize>,
    pub input_mode: InputMode,
    pub input_buffer: String,
    pub logs: Vec<String>,
    pub users_list: Vec<LabUser>,
    pub busy: bool,
    pub was_busy: bool,
    pub tick_count: u64,
}

/// The message the dashboard starts its log with.
pub open spec fn startup_message() -> Seq<char> {
    "[INFO] VLSI Lab Ratatui Setup Tool initialized."@
}

/// The two accounts of a machine, as the users pane lists them.
pub open spec fn users_of(
    config: LabConfig,
    sysadmin: UserStatus,
    student: UserStatus,
) -> Seq<(Seq<char>, Seq<char>, Seq<char>, bool, bool)> {
    seq![
        (config.sysadmin_user@, "Sysadmin"@, "SYSADMIN"@, sysadmin.exists, sysadmin.bashrc_configured),
        (
            config.student_user@,
            "Student"@,
            "STUDENT-"@ + decimal(config.machine_number as nat),
            student.exists,
            student.bashrc_configured,
        ),
    ]
}

/// A listed account as plain values.
pub open spec fn user_view(u: LabUser) -> (Seq<char>, Seq<char>, Seq<char>, bool, bool) {
    (u.username@, u.role@, u.identifier@, u.exists, u.bashrc_configured)
}

impl App {
    /// The part of the state that key presses change.
    pub open spec fn ui(&self) -> Ui {
        Ui {
            focus: self.focus,
            main: self.main_menu_selected,
            sub: self.sub_menu_selected,
            mode: self.input_mode,
            buffer: self.input_buffer@,
            busy: self.busy,
        }
    }

    /// Both menus have a selection within their panes.
    pub open spec fn wf(&self) -> bool {
        ui_wf(self.ui())
    }

    /// The listed accounts as plain values.
    pub open spec fn users(&self) -> Seq<(Seq<char>, Seq<char>, Seq<char>, bool, bool)> {
        self.users_list@.map_values(|u: LabUser| user_view(u))
    }

    /// Whether `self` and `other` agree outside the key-driven part.
    pub open spec fn same_data(&self, other: App) -> bool {
        &&& self.config == other.config
        &&& self.logs == other.logs
        &&& self.users_list == other.users_list
        &&& self.was_busy == other.was_busy
        &&& self.tick_count == other.tick_count
    }

    /// The dashboard for `config`, with the main menu in front, the first
    /// entries selected, the two accounts listed from the probes, and the
    /// start-up message logged.
    pub fn new(config: LabConfig, sysadmin: UserStatus, student: UserStatus) -> (app: Self)
        ensures
            app.wf(),
            app.focus == Focus::MainMenu,
            app.main_menu_selected == Some(0usize),
            app.sub_menu_selected == Some(0usize),
            app.input_mode == InputMode::Normal,
            app.input_buffer@ == Seq::<char>::empty(),
            app.users() == users_of(config, sysadmin, student),
            app.logs@.map_values(|s: String| s@) == seq![startup_message()],
            !app.busy,
            !app.was_busy,
            app.tick_count == 0,
            app.config == config,
    {
        let mut app = App {
            config,
            focus: Focus::MainMenu,
            main_menu_selected: Some(0),
            sub_menu_selected: Some(0),
            input_mode: InputMode::Normal,
            input_buffer: String::new(),
            logs: Vec::new(),
            users_list: Vec::new(),
            busy: false,
            was_busy: false,
            tick_count: 0,
        };
        app.refresh_users(sysadmin, student);
        app.logs.push(String::from_str("[INFO] VLSI Lab Ratatui Setup Tool initialized."));
        assert(app.logs@.map_values(|s: String| s@) =~= seq![startup_message()]);
        app
    }

    /// Relists the machine's two accounts from fresh probes.
    pub fn refresh_users(&mut self, sysadmin: UserStatus, student: UserStatus)
        ensures
            final(self).users() == users_of(old(self).config, sysadmin, student),
            final(self).ui() == old(self).ui(),
            final(self).config == old(self).config,
            final(self).logs == old(self).logs,
            final(self).was_busy == old(self).was_busy,
            final(self).tick_count == old(self).tick_count,
    {
        let admin = LabUser {
            username: self.config.sysadmin_user.clone(),
            role: String::from_str("Sysadmin"),
            identifier: String::from_str("SYSADMIN"),
            exists: sysadmin.exists,
            bashrc_configured: sysadmin.bashrc_configured,
        };
        let stud = LabUser {
            username: self.config.student_user.clone(),
            role: String::from_str("Student"),
            identifier: with_decimal("STUDENT-", self.config.machine_number as u64),
            exists: student.exists,
            bashrc_configured: student.bashrc_configured,
        };
        let mut list: Vec<LabUser> = Vec::new();
        list.push(admin);
        list.push(stud);
        self.users_list = list;
        assert(self.users() =~= users_of(self.config, sysadmin, student));
    }

    /// Switches the dashboard to another machine's configuration: records
    /// its `MACHINE_NUMBER`, relists its two accounts from fresh probes, and
    /// returns the state file to write and the message to log.
    pub fn apply_machine_config(
        &mut self,
        config: LabConfig,
        sysadmin: UserStatus,
        student: UserStatus,
    ) -> (r: MachineChange)
        ensures
            final(self).config.machine_number == config.machine_number,
            final(self).config.sysadmin_user == config.sysadmin_user,
            final(self).config.student_user == config.student_user,
            final(self).config.hostname_fqdn == config.hostname_fqdn,
            final(self).config.state@ == config.state@.insert(
                "MACHINE_NUMBER"@,
                decimal(config.machine_number as nat),
            ),
            r.state_content@ == crate::state::render(final(self).config.state.pairs()),
            r.message@ == "[CONFIG] Machine updated to #"@ + decimal(config.machine_number as nat)
                + " ("@ + config.hostname_fqdn@ + ")"@,
            final(self).users() == users_of(final(self).config, sysadmin, student),
            final(self).ui() == old(self).ui(),
            final(self).logs == old(self).logs,
            final(self).was_busy == old(self).was_busy,
            final(self).tick_count == old(self).tick_count,
    {
        self.config = config;
        let num = with_decimal("", self.config.machine_number as u64);
        proof {
            reveal_strlit("");
            assert(num@ =~= decimal(self.config.machine_number as nat));
        }
        let state_content = self.config.save_state_key("MACHINE_NUMBER", num.as_str());
        let mut message = String::from_str("[CONFIG] Machine updated to #");
        message.append(num.as_str());
        message.append(" (");
        message.append(self.config.hostname_fqdn.as_str());
        message.append(")");
        self.refresh_users(sysadmin, student);
        MachineChange { state_content, message }
    }

    /// Adds a message to the on-screen log.
    pub fn add_log(&mut self, msg: String)
        ensures
            final(self).logs@ == old(self).logs@.push(msg),
            final(self).ui() == old(self).ui(),
            final(self).config == old(self).config,
            final(self).users_list == old(self).users_list,
            final(self).was_busy == old(self).was_busy,
            final(self).tick_count == old(self).tick_count,
    {
        self.logs.push(msg);
    }

    /// Marks the background task finished: the dashboard is no longer busy;
    /// nothing else changes.
    pub fn task_finished(&mut self)
        ensures
            final(self).ui() == finish_task(old(self).ui()),
            !final(self).was_busy,
            final(self).config == old(self).config,
            final(self).logs == old(self).logs,
            final(self).users_list == old(self).users_list,
            final(self).tick_count == old(self).tick_count,
    {
        self.busy = false;
        self.was_busy = false;
    }

    /// Advances the tick counter (wrapping) and takes in whether the
    /// background task is still running. When the dashboard was busy and
    /// the task has stopped, the task is marked finished and the result is
    /// true: the accounts should then be probed and relisted. Otherwise the
    /// key-driven state is left as it was.
    pub fn on_tick(&mut self, task_running: bool) -> (refresh: bool)
        ensures
            refresh == (old(self).busy && !task_running),
            refresh ==> final(self).ui() == finish_task(old(self).ui()),
            !refresh ==> final(self).ui() == old(self).ui(),
            final(self).tick_count == (if old(self).tick_count == u64::MAX {
                0
            } else {
                (old(self).tick_count + 1) as u64
            }),
            final(self).was_busy == final(self).busy,
            final(self).config == old(self).config,
            final(self).logs == old(self).logs,
            final(self).users_list == old(self).users_list,
    {
        self.tick_count = self.tick_count.wrapping_add(1);
        if self.busy && !task_running {
            self.task_finished();
            true
        } else {
            self.was_busy = self.busy;
            false
        }
    }

    /// Whether a background task is running.
    pub fn is_busy(&self) -> (b: bool)
        ensures
            b == self.busy,
    {
        self.busy
    }

    /// The largest index of the main menu.
    pub fn current_main_menu_max_idx(&self) -> (r: usize)
        ensures
            r == main_menu_max(),
    {
        6
    }

    /// The largest index of the actions pane under the selected entry.
    pub fn current_sub_menu_max_idx(&self) -> (r: usize)
        ensures
            r == sub_menu_max(self.main_menu_selected),
    {
        match self.main_menu_selected {
            Some(3) => 7,
            _ => 0,
        }
    }

    /// Runs the selected entry of the actions pane: refreshes, starts a
    /// background task (putting the log stream in front), opens the
    /// "add user" prompt or shows the log, depending on the entry.
    pub fn handle_sub_menu_execute(&mut self) -> (a: Action)
        ensures
            (final(self).ui(), a@) == execute(old(self).ui()),
            final(self).same_data(*old(self)),
    {
        let main = match self.main_menu_selected {
            Some(i) => i,
            None => 0,
        };
        let sub = match self.sub_menu_selected {
            Some(i) => i,
            None => 0,
        };
        if main == 0 {
            Action::RefreshValidation
        } else if main == 1 {
            if sub == 0 {
                self.focus = Focus::LogStream;
                self.busy = true;
                Action::RunPreinstall
            } else {
                Action::Nothing
            }
        } else if main == 3 {
            let tool = if sub / 2 == 0 {
                EdaTool::Xilinx
            } else if sub / 2 == 1 {
                EdaTool::Cadence
            } else if sub / 2 == 2 {
                EdaTool::Silvaco
            } else {
                EdaTool::Cadre
            };
            self.focus = Focus::LogStream;
            self.busy = true;
            if sub % 2 == 0 {
                Action::InstallTool(tool)
            } else {
                Action::RecreateEnv(tool)
            }
        } else if main == 4 {
            Action::RefreshNetwork
        } else if main == 5 {
            if sub == 0 {
                self.input_mode = InputMode::AddUserPrompt;
                self.input_buffer = String::new();
            }
            Action::Nothing
        } else if main == 6 {
            self.focus = Focus::LogStream;
            Action::Nothing
        } else {
            Action::Nothing
        }
    }

    /// Submits the "add user" prompt: closes it, and for a well-formed line
    /// starts creating the account; a malformed line is answered with an
    /// error message instead.
    pub fn handle_add_user_submit(&mut self) -> (a: Action)
        ensures
            (final(self).ui(), a@) == submit_user(old(self).ui()),
            final(self).same_data(*old(self)),
    {
        let input = trim_vec(&chars_of(self.input_buffer.as_str()));
        self.input_buffer = String::new();
        self.input_mode = InputMode::Normal;
        if input.len() == 0 {
            return Action::Nothing;
        }
        let parts = split_chars(&input, ',');
        proof {
            crate::text::lemma_split_on_nonempty(input@, ',');
        }
        if parts.len() == 3 {
            assert(views(parts@)[0] == parts@[0]@);
            assert(views(parts@)[1] == parts@[1]@);
            assert(views(parts@)[2] == parts@[2]@);
            let username = string_of(&trim_vec(&parts[0]));
            let role = string_of(&trim_vec(&parts[1]));
            let identifier = string_of(&trim_vec(&parts[2]));
            self.focus = Focus::LogStream;
            self.busy = true;
            Action::AddUser { username, role, identifier }
        } else if parts.len() == 1 {
            assert(views(parts@)[0] == parts@[0]@);
            let username = string_of(&trim_vec(&parts[0]));
            self.focus = Focus::LogStream;
            self.busy = true;
            Action::AddUser {
                username,
                role: String::from_str("Student"),
                identifier: String::from_str("REG-DEFAULT"),
            }
        } else {
            Action::Log(String::from_str("[ERROR] Invalid user format. Use: USERNAME,ROLE,REGISTER_NO"))
        }
    }

    /// Submits the dependency prompt: closes it, and for a non-blank line
    /// starts resolving the trimmed query.
    pub fn handle_dependency_submit(&mut self) -> (a: Action)
        ensures
            (final(self).ui(), a@) == submit_dependency(old(self).ui()),
            final(self).same_data(*old(self)),
    {
        let input = trim_vec(&chars_of(self.input_buffer.as_str()));
        self.input_buffer = String::new();
        self.input_mode = InputMode::Normal;
        if input.len() == 0 {
            return Action::Nothing;
        }
        self.focus = Focus::LogStream;
        self.busy = true;
        Action::ResolveDependency(string_of(&input))
    }

    /// Submits the machine number prompt.
    fn handle_machine_submit(&mut self) -> (a: Action)
        ensures
            (final(self).ui(), a@) == submit_machine(old(self).ui()),
            final(self).same_data(*old(self)),
    {
        let input = trim_vec(&chars_of(self.input_buffer.as_str()));
        self.input_buffer = String::new();
        self.input_mode = InputMode::Normal;
        match parse_u8_chars(&input) {
            Some(n) => if 1 <= n && n <= 20 {
                Action::ChangeMachine(n)
            } else {
                Action::Nothing
            },
            None => Action::Nothing,
        }
    }

    /// Removes the last character of the input line, if any.
    fn pop_input(&mut self)
        ensures
            final(self).input_buffer@ == (if old(self).input_buffer@.len() > 0 {
                old(self).input_buffer@.drop_last()
            } else {
                old(self).input_buffer@
            }),
            final(self).focus == old(self).focus,
            final(self).main_menu_selected == old(self).main_menu_selected,
            final(self).sub_menu_selected == old(self).sub_menu_selected,
            final(self).input_mode == old(self).input_mode,
            final(self).busy == old(self).busy,
            final(self).same_data(*old(self)),
    {
        let v = chars_of(self.input_buffer.as_str());
        if v.len() > 0 {
            let kept = slice_vec(&v, 0, v.len() - 1);
            assert(kept@ =~= v@.drop_last());
            self.input_buffer = string_of(&kept);
        }
    }

    /// A key press while a prompt is open.
    fn handle_prompt_key(&mut self, key: Key) -> (a: Action)
        requires
            old(self).input_mode != InputMode::Normal,
        ensures
            (final(self).ui(), a@) == prompt_step(old(self).ui(), key),
            final(self).same_data(*old(self)),
    {
        match key {
            Key::Enter => match self.input_mode {
                InputMode::MachineConfigPrompt => self.handle_machine_submit(),
                InputMode::AddUserPrompt => self.handle_add_user_submit(),
                _ => self.handle_dependency_submit(),
            },
            Key::Esc => {
                self.input_buffer = String::new();
                self.input_mode = InputMode::Normal;
                Action::Nothing
            },
            Key::Char(c) => {
                push_char(&mut self.input_buffer, c);
                Action::Nothing
            },
            Key::Backspace => {
                self.pop_input();
                Action::Nothing
            },
            _ => Action::Nothing,
        }
    }

    /// Opens a prompt with an empty input line.
    fn open_prompt(&mut self, mode: InputMode)
        ensures
            final(self).ui() == open_prompt(old(self).ui(), mode),
            final(self).same_data(*old(self)),
    {
        self.input_mode = mode;
        self.input_buffer = String::new();
    }

    /// A key press in normal mode.
    fn handle_normal_key(&mut self, key: Key) -> (a: Action)
        requires
            old(self).input_mode == InputMode::Normal,
        ensures
            (final(self).ui(), a@) == normal_step(old(self).ui(), key),
            final(self).same_data(*old(self)),
    {
        match key {
            Key::Char('q') => Action::Quit,
            Key::Esc | Key::Left => {
                if self.focus == Focus::LogStream {
                    self.focus = Focus::MainMenu;
                } else if self.focus == Focus::SubMenu {
                    self.focus = Focus::MainMenu;
                    self.sub_menu_selected = Some(0);
                }
                Action::Nothing
            },
            Key::Right => {
                if self.focus == Focus::MainMenu {
                    self.focus = Focus::SubMenu;
                }
                Action::Nothing
            },
            Key::Up => {
                if self.focus == Focus::MainMenu {
                    let i = match self.main_menu_selected {
                        Some(i) => if i == 0 {
                            0
                        } else {
                            i - 1
                        },
                        None => 0,
                    };
                    self.main_menu_selected = Some(i);
                    self.sub_menu_selected = Some(0);
                } else if self.focus == Focus::SubMenu {
                    let i = match self.sub_menu_selected {
                        Some(i) => if i == 0 {
                            0
                        } else {
                            i - 1
                        },
                        None => 0,
                    };
                    self.sub_menu_selected = Some(i);
                }
                Action::Nothing
            },
            Key::Down => {
                if self.focus == Focus::MainMenu {
                    let max_idx = self.current_main_menu_max_idx();
                    let i = match self.main_menu_selected {
                        Some(i) => if i >= max_idx {
                            max_idx
                        } else {
                            i + 1
                        },
                        None => 0,
                    };
                    self.main_menu_selected = Some(i);
                    self.sub_menu_selected = Some(0);
                } else if self.focus == Focus::SubMenu {
                    let max_idx = self.current_sub_menu_max_idx();
                    let i = match self.sub_menu_selected {
                        Some(i) => if i >= max_idx {
                            max_idx
                        } else {
                            i + 1
                        },
                        None => 0,
                    };
                    self.sub_menu_selected = Some(i);
                }
                Action::Nothing
            },
            Key::Enter => {
                if self.focus == Focus::MainMenu {
                    self.focus = Focus::SubMenu;
                    Action::Nothing
                } else if self.focus == Focus::SubMenu {
                    self.handle_sub_menu_execute()
                } else {
                    Action::Nothing
                }
            },
            Key::Char('a') => {
                if self.main_menu_selected == Some(5usize) {
                    self.open_prompt(InputMode::AddUserPrompt);
                }
                Action::Nothing
            },
            Key::Char('m') => {
                self.open_prompt(InputMode::MachineConfigPrompt);
                Action::Nothing
            },
            Key::Char('p') => {
                self.open_prompt(InputMode::DependencyPrompt);
                Action::Nothing
            },
            Key::Char('0') => {
                self.focus = Focus::LogStream;
                self.busy = true;
                Action::RunPreinstall
            },
            Key::Char('x') => {
                self.focus = Focus::LogStream;
                self.busy = true;
                Action::InstallTool(EdaTool::Xilinx)
            },
            Key::Char('c') => {
                self.focus = Focus::LogStream;
                self.busy = true;
                Action::InstallTool(EdaTool::Cadence)
            },
            Key::Char('s') => {
                self.focus = Focus::LogStream;
                self.busy = true;
                Action::InstallTool(EdaTool::Silvaco)
            },
            Key::Char('v') => {
                self.focus = Focus::LogStream;
                self.busy = true;
                Action::InstallTool(EdaTool::Cadre)
            },
            Key::Char('u') => {
                self.focus = Focus::MainMenu;
                self.main_menu_selected = Some(5);
                self.sub_menu_selected = Some(0);
                Action::Nothing
            },
            _ => Action::Nothing,
        }
    }

    /// Handles one key press and returns what the outside has to do.
    pub fn handle_key(&mut self, key: Key) -> (a: Action)
        ensures
            (final(self).ui(), a@) == step(old(self).ui(), key),
            final(self).same_data(*old(self)),
    {
        if self.input_mode == InputMode::Normal {
            self.handle_normal_key(key)
        } else {
            self.handle_prompt_key(key)
        }
    }
}

/// Every key press keeps both menu selections within their panes.
pub proof fn lemma_step_preserves_wf(u: Ui, k: Key)
    requires
        ui_wf(u),
    ensures
        ui_wf(step(u, k).0),
{
}

/// In a prompt, typing a character and erasing it again changes nothing.
pub proof fn lemma_type_then_erase(u: Ui, c: char)
    requires
        u.mode != InputMode::Normal,
    ensures
        step(step(u, Key::Char(c)).0, Key::Backspace) == (u, ActionView::Nothing),
{
    assert(u.buffer.push(c).drop_last() =~= u.buffer);
}

/// `Esc` in a prompt closes it, empties the input line and does nothing else.
pub proof fn lemma_escape_closes_prompt(u: Ui)
    requires
        u.mode != InputMode::Normal,
    ensures
        step(u, Key::Esc) == (close_prompt(u), ActionView::Nothing),
{
}

/// Arrow keys never start anything and never touch the prompt, the input
/// line or the running task.
pub proof fn lemma_arrows_are_inert(u: Ui, k: Key)
    requires
        k == Key::Up || k == Key::Down || k == Key::Left || k == Key::Right,
    ensures
        step(u, k).1 == ActionView::Nothing,
        step(u, k).0.mode == u.mode,
        step(u, k).0.buffer == u.buffer,
        step(u, k).0.busy == u.busy,
{
}

/// A key press that starts a background task marks the dashboard busy,
/// brings the log stream to the front and leaves no prompt open.
pub proof fn lemma_tasks_show_log(u: Ui, k: Key)
    requires
        is_task(step(u, k).1),
    ensures
        step(u, k).0.busy,
        step(u, k).0.focus == Focus::LogStream,
        step(u, k).0.mode == InputMode::Normal,
{
}

/// Key presses never mark a task finished: the dashboard is busy after a
/// key press exactly when it was before or the key started a task.
pub proof fn lemma_busy_only_grows(u: Ui, k: Key)
    ensures
        step(u, k).0.busy == (u.busy || is_task(step(u, k).1)),
{
}

/// Once a task is running, no run of key presses marks it finished: only
/// [`finish_task`] clears the busy mark.
pub proof fn lemma_busy_until_finished(u: Ui, keys: Seq<Key>)
    requires
        u.busy,
    ensures
        run_keys(u, keys).busy,
        !finish_task(run_keys(u, keys)).busy,
    decreases keys.len(),
{
    if keys.len() > 0 {
        lemma_busy_until_finished(u, keys.drop_last());
        lemma_busy_only_grows(run_keys(u, keys.drop_last()), keys.last());
    }
}

/// Finishing the task clears the busy mark and changes nothing else.
pub proof fn lemma_finish_only_clears_busy(u: Ui)
    ensures
        !finish_task(u).busy,
        finish_task(u).focus == u.focus,
        finish_task(u).main == u.main,
        finish_task(u).sub == u.sub,
        finish_task(u).mode == u.mode,
        finish_task(u).buffer == u.buffer,
{
}

/// How the actions pane spells a tool's name.
pub open spec fn menu_tool_name(t: EdaTool) -> Seq<char> {
    match t {
        EdaTool::Xilinx => "Xilinx"@,
        EdaTool::Cadence => "Cadence"@,
        EdaTool::Silvaco => "Silvaco"@,
        EdaTool::Cadre => "Cadre"@,
    }
}

/// Running an entry of the EDA tools pane does what its label says: the
/// entry labelled ` TOOL - Install Binary ` installs TOOL, the entry
/// labelled ` TOOL - Recreate Env ` regenerates TOOL's environment, and
/// every entry of the pane is one of the two.
pub proof fn lemma_tool_entries_match_labels(u: Ui, k: usize)
    requires
        u.main == Some(3usize),
        u.sub == Some(k),
        k < sub_menu_len(3),
    ensures
        match execute(u).1 {
            ActionView::InstallTool(t) => sub_menu_labels(3)[k as int] == " "@ + menu_tool_name(t)
                + " - Install Binary "@,
            ActionView::RecreateEnv(t) => sub_menu_labels(3)[k as int] == " "@ + menu_tool_name(t)
                + " - Recreate Env "@,
            _ => false,
        },
{
    reveal_strlit(" ");
    reveal_strlit(" - Install Binary ");
    reveal_strlit(" - Recreate Env ");
    reveal_strlit("Xilinx");
    reveal_strlit("Cadence");
    reveal_strlit("Silvaco");
    reveal_strlit("Cadre");
    reveal_strlit(" Xilinx - Install Binary ");
    reveal_strlit(" Xilinx - Recreate Env ");
    reveal_strlit(" Cadence - Install Binary ");
    reveal_strlit(" Cadence - Recreate Env ");
    reveal_strlit(" Silvaco - Install Binary ");
    reveal_strlit(" Silvaco - Recreate Env ");
    reveal_strlit(" Cadre - Install Binary ");
    reveal_strlit(" Cadre - Recreate Env ");
    let labels = sub_menu_labels(3);
    if k == 0 {
        assert(labels[0] =~= " "@ + "Xilinx"@ + " - Install Binary "@);
    } else if k == 1 {
        assert(labels[1] =~= " "@ + "Xilinx"@ + " - Recreate Env "@);
    } else if k == 2 {
        assert(labels[2] =~= " "@ + "Cadence"@ + " - Install Binary "@);
    } else if k == 3 {
        assert(labels[3] =~= " "@ + "Cadence"@ + " - Recreate Env "@);
    } else if k == 4 {
        assert(labels[4] =~= " "@ + "Silvaco"@ + " - Install Binary "@);
    } else if k == 5 {
        assert(labels[5] =~= " "@ + "Silvaco"@ + " - Recreate Env "@);
    } else if k == 6 {
        assert(labels[6] =~= " "@ + "Cadre"@ + " - Install Binary "@);
    } else {
        assert(labels[7] =~= " "@ + "Cadre"@ + " - Recreate Env "@);
    }
}

/// The machine prompt accepts exactly the machine numbers 1 to 20: typing
/// the decimal number `n` and pressing Enter switches to machine `n` when
/// `1 <= n <= 20` and does nothing otherwise; either way the prompt closes.
pub proof fn lemma_machine_prompt_accepts_1_to_20(u: Ui, n: u8)
    requires
        u.mode == InputMode::MachineConfigPrompt,
        u.buffer == decimal(n as nat),
    ensures
        step(u, Key::Enter).1 == (if 1 <= n && n <= 20 {
            ActionView::ChangeMachine(n)
        } else {
            ActionView::Nothing
        }),
        step(u, Key::Enter).0.mode == InputMode::Normal,
{
    let d = decimal(n as nat);
    lemma_decimal_digits(n as nat);
    assert(crate::text::is_digit(d[0]));
    assert(crate::text::is_digit(d.last()));
    assert(!is_ws(d[0]));
    assert(!is_ws(d.last()));
    lemma_trim_trimmed(d);
    lemma_parse_decimal_u8(n);
}

/// Only `q`, and only outside prompts, quits.
pub proof fn lemma_quit_only_on_q(u: Ui, k: Key)
    ensures
        (step(u, k).1 == ActionView::Quit) <==> (u.mode == InputMode::Normal && k == Key::Char(
            'q',
        )),
{
}

/// Moving down and back up in the main menu returns to the same entry,
/// unless the selection was already at the bottom.
pub proof fn lemma_down_then_up(u: Ui, i: usize)
    requires
        u.mode == InputMode::Normal,
        u.focus == Focus::MainMenu,
        u.main == Some(i),
        i < main_menu_max(),
    ensures
        step(step(u, Key::Down).0, Key::Up).0.main == Some(i),
        step(step(u, Key::Down).0, Key::Up).0.focus == Focus::MainMenu,
{
}

} // verus!
