//! What the dashboard shows: menu entries, footers, prompts, status marks,
//! the tool details pane and the log view. Drawing them is left to the
//! terminal front end.

use vstd::prelude::*;
use crate::app::{Focus, InputMode};
use crate::text::{chars_of, contains_chars, contains_seq};
use crate::validation::{ValidationState, eq_ignore_ascii_case, equal_ignoring_ascii_case, results};

verus! {

/// The entries of the main menu.
pub fn main_menu_items() -> (r: Vec<&'static str>)
    ensures
        r@.map_values(|s: &str| s@) == main_menu_labels(),
{
    let r = vec![
        " 0. Dashboard ",
        " 1. Pre-requisites ",
        " 2. Essential Apps ",
        " 3. EDA Tools Setup ",
        " 4. Network Diagnostics ",
        " 5. User Management ",
        " 6. View Installer Logs ",
    ];
    assert(r@.map_values(|s: &str| s@) =~= main_menu_labels());
    r
}

/// The entries of the main menu.
pub open spec fn main_menu_labels() -> Seq<Seq<char>> {
    seq![
        " 0. Dashboard "@,
        " 1. Pre-requisites "@,
        " 2. Essential Apps "@,
        " 3. EDA Tools Setup "@,
        " 4. Network Diagnostics "@,
        " 5. User Management "@,
        " 6. View Installer Logs "@,
    ]
}

/// The entries of the actions pane under a main menu entry.
pub open spec fn sub_menu_labels(main_idx: usize) -> Seq<Seq<char>> {
    if main_idx == 0 {
        seq![" [ Refresh Dashboard ] "@]
    } else if main_idx == 1 {
        seq![" [ Execute PreInstall ] "@]
    } else if main_idx == 2 {
        seq![" [ Refresh Checks ] "@]
    } else if main_idx == 3 {
        seq![
            " Xilinx - Install Binary "@,
            " Xilinx - Recreate Env "@,
            " Cadence - Install Binary "@,
            " Cadence - Recreate Env "@,
            " Silvaco - Install Binary "@,
            " Silvaco - Recreate Env "@,
            " Cadre - Install Binary "@,
            " Cadre - Recreate Env "@,
        ]
    } else if main_idx == 4 {
        seq![" [ Refresh Scans ] "@]
    } else if main_idx == 5 {
        seq![" [ Add New Lab User ] "@]
    } else if main_idx == 6 {
        seq![" [ View Logs ] "@]
    } else {
        Seq::empty()
    }
}

/// The number of entries of the actions pane under a main menu entry: one
/// more than the largest index the selection may reach.
pub open spec fn sub_menu_len(main_idx: usize) -> nat {
    if main_idx == 3 {
        8
    } else if main_idx <= 6 {
        1
    } else {
        0
    }
}

/// The entries of the actions pane under a main menu entry.
pub fn sub_menu_items(main_idx: usize) -> (r: Vec<&'static str>)
    ensures
        r@.map_values(|s: &str| s@) == sub_menu_labels(main_idx),
        r@.len() == sub_menu_len(main_idx),
{
    let r = if main_idx == 0 {
        vec![" [ Refresh Dashboard ] "]
    } else if main_idx == 1 {
        vec![" [ Execute PreInstall ] "]
    } else if main_idx == 2 {
        vec![" [ Refresh Checks ] "]
    } else if main_idx == 3 {
        vec![
            " Xilinx - Install Binary ",
            " Xilinx - Recreate Env ",
            " Cadence - Install Binary ",
            " Cadence - Recreate Env ",
            " Silvaco - Install Binary ",
            " Silvaco - Recreate Env ",
            " Cadre - Install Binary ",
            " Cadre - Recreate Env ",
        ]
    } else if main_idx == 4 {
        vec![" [ Refresh Scans ] "]
    } else if main_idx == 5 {
        vec![" [ Add New Lab User ] "]
    } else if main_idx == 6 {
        vec![" [ View Logs ] "]
    } else {
        Vec::new()
    };
    assert(r@.map_values(|s: &str| s@) =~= sub_menu_labels(main_idx));
    r
}

/// The footer for the current focus and task.
pub open spec fn footer(focus: Focus, busy: bool, blink_on: bool) -> Seq<char> {
    if focus == Focus::LogStream {
        if !busy {
            if blink_on {
                " [Task Complete] Press [Esc] to return "@
            } else {
                " "@
            }
        } else {
            " Task is running... Please wait "@
        }
    } else {
        "Use [↑/↓/←/→] to navigate, [Enter] execute action, [m] Machine Config, [p] Custom Dep, [q] quit."@
    }
}

/// The footer for the current focus and task.
pub fn footer_text(focus: Focus, busy: bool, blink_on: bool) -> (r: &'static str)
    ensures
        r@ == footer(focus, busy, blink_on),
{
    match focus {
        Focus::LogStream => if !busy {
            if blink_on {
                " [Task Complete] Press [Esc] to return "
            } else {
                " "
            }
        } else {
            " Task is running... Please wait "
        },
        _ => "Use [↑/↓/←/→] to navigate, [Enter] execute action, [m] Machine Config, [p] Custom Dep, [q] quit.",
    }
}

/// The title and instruction of the popup of each prompt.
pub open spec fn prompt_labels_of(mode: InputMode) -> Option<(Seq<char>, Seq<char>)> {
    match mode {
        InputMode::DependencyPrompt => Some(
            (
                " Install Custom Dependency "@,
                "Enter package name (e.g., libXp, tcsh) and press Enter:"@,
            ),
        ),
        InputMode::MachineConfigPrompt => Some(
            (" Set Machine Number "@, "Enter machine number (1-20) and press Enter:"@),
        ),
        InputMode::AddUserPrompt => Some(
            (" Add Lab User "@, "Enter user format: USERNAME,ROLE,REG_NO and press Enter:"@),
        ),
        InputMode::Normal => None,
    }
}

/// The title and instruction of the popup of a prompt.
pub fn prompt_labels(mode: InputMode) -> (r: Option<(&'static str, &'static str)>)
    ensures
        match r {
            Some(l) => prompt_labels_of(mode) == Some((l.0@, l.1@)),
            None => prompt_labels_of(mode) is None,
        },
{
    match mode {
        InputMode::DependencyPrompt => Some(
            (
                " Install Custom Dependency ",
                "Enter package name (e.g., libXp, tcsh) and press Enter:",
            ),
        ),
        InputMode::MachineConfigPrompt => Some(
            (" Set Machine Number ", "Enter machine number (1-20) and press Enter:"),
        ),
        InputMode::AddUserPrompt => Some(
            (" Add Lab User ", "Enter user format: USERNAME,ROLE,REG_NO and press Enter:"),
        ),
        InputMode::Normal => None,
    }
}

/// The popup text of a prompt: the instruction, a blank line, and the
/// input line with a cursor.
pub fn prompt_text(instruction: &str, buffer: &str) -> (r: String)
    ensures
        r@ == "\n"@ + instruction@ + "\n\n> "@ + buffer@ + "_"@,
{
    let mut s = String::from_str("\n");
    s.append(instruction);
    s.append("\n\n> ");
    s.append(buffer);
    s.append("_");
    s
}

/// How a log line is highlighted.
#[derive(Debug, Clone, Copy, PartialEq, Eq, Structural)]
pub enum LogKind {
    Error,
    Warning,
    Complete,
    Plain,
}

/// The highlight of a log line: errors first, then warnings, then the
/// completion banner.
pub open spec fn log_kind_of(line: Seq<char>) -> LogKind {
    if contains_seq(line, "[ERROR]"@) {
        LogKind::Error
    } else if contains_seq(line, "[WARN]"@) {
        LogKind::Warning
    } else if contains_seq(line, "TASK COMPLETE"@) {
        LogKind::Complete
    } else {
        LogKind::Plain
    }
}

/// The highlight of a log line.
pub fn log_kind(line: &str) -> (k: LogKind)
    ensures
        k == log_kind_of(line@),
{
    let v = chars_of(line);
    if contains_chars(&v, &chars_of("[ERROR]")) {
        LogKind::Error
    } else if contains_chars(&v, &chars_of("[WARN]")) {
        LogKind::Warning
    } else if contains_chars(&v, &chars_of("TASK COMPLETE")) {
        LogKind::Complete
    } else {
        LogKind::Plain
    }
}

/// The banner shown under the log once a task has finished.
pub open spec fn completion_banner() -> Seq<Seq<char>> {
    seq![
        Seq::<char>::empty(),
        "=================================================="@,
        " [TASK COMPLETE] Press [Esc] to return to the menu "@,
        "=================================================="@,
    ]
}

/// The lines of the log view: the log, followed by the completion banner
/// when no task runs and the banner is lit.
pub fn log_view_lines(logs: &Vec<String>, busy: bool, blink_on: bool) -> (r: Vec<String>)
    ensures
        r@.map_values(|s: String| s@) == (if !busy && blink_on {
            logs@.map_values(|s: String| s@) + completion_banner()
        } else {
            logs@.map_values(|s: String| s@)
        }),
{
    let mut r: Vec<String> = Vec::new();
    let n = logs.len();
    for i in 0..n
        invariant
            n == logs@.len(),
            r@.map_values(|s: String| s@) == logs@.map_values(|s: String| s@).take(i as int),
    {
        let ghost before = r@.map_values(|s: String| s@);
        let line = logs[i].clone();
        r.push(line);
        assert(r@.map_values(|s: String| s@) =~= before.push(logs@[i as int]@));
        assert(logs@.map_values(|s: String| s@).take(i + 1) =~= logs@.map_values(
            |s: String| s@,
        ).take(i as int).push(logs@[i as int]@));
    }
    assert(logs@.map_values(|s: String| s@).take(n as int) =~= logs@.map_values(|s: String| s@));
    if !busy && blink_on {
        let ghost before = r@.map_values(|s: String| s@);
        r.push(String::new());
        r.push(String::from_str("=================================================="));
        r.push(String::from_str(" [TASK COMPLETE] Press [Esc] to return to the menu "));
        r.push(String::from_str("=================================================="));
        assert(r@.map_values(|s: String| s@) =~= before + completion_banner());
    }
    r
}

/// How far to scroll a view of `line_count` lines in a bordered box of
/// `height` rows so that its last line shows: the overflow beyond the
/// `height - 2` inner rows, cut to 16 bits.
pub open spec fn scroll_for(line_count: usize, height: u16) -> u16 {
    let inner: int = if height >= 2 {
        height - 2
    } else {
        0
    };
    if line_count > inner {
        ((line_count - inner) as usize) as u16
    } else {
        0
    }
}

/// The scroll offset of the log view.
pub fn scroll_offset(line_count: usize, height: u16) -> (r: u16)
    ensures
        r == scroll_for(line_count, height),
{
    let inner = height.saturating_sub(2) as usize;
    if line_count > inner {
        #[verifier::truncate]
        ((line_count - inner) as u16)
    } else {
        0
    }
}

/// The mark for a passed or failed check.
pub fn status_mark(ok: bool) -> (r: &'static str)
    ensures
        r@ == (if ok {
            "✔"@
        } else {
            "✖"@
        }),
{
    if ok {
        "✔"
    } else {
        "✖"
    }
}

/// The label of a probed port.
pub fn port_status_label(reachable: Option<bool>) -> (r: &'static str)
    ensures
        r@ == match reachable {
            Some(true) => "✔ UP"@,
            Some(false) => "✖ DOWN"@,
            None => "? UNKNOWN"@,
        },
{
    match reachable {
        Some(true) => "✔ UP",
        Some(false) => "✖ DOWN",
        None => "? UNKNOWN",
    }
}

/// The tool shown for an entry of the EDA tools pane.
pub open spec fn details_tool_name(sub_idx: usize) -> Seq<char> {
    if sub_idx / 2 == 0 {
        "Xilinx"@
    } else if sub_idx / 2 == 1 {
        "Cadence"@
    } else if sub_idx / 2 == 2 {
        "Silvaco"@
    } else {
        "Cadre"@
    }
}

/// The status of the first check whose name equals `name` up to ASCII
/// case; `false` when there is none.
pub open spec fn status_of(checks: Seq<(Seq<char>, bool)>, name: Seq<char>) -> bool
    decreases checks.len(),
{
    if checks.len() == 0 {
        false
    } else if eq_ignore_ascii_case(checks[0].0, name) {
        checks[0].1
    } else {
        status_of(checks.drop_first(), name)
    }
}

/// What the details pane says of the selected EDA tools entry.
pub struct ToolDetails {
    pub tool_name: &'static str,
    pub action: &'static str,
    pub description: &'static str,
    pub bin_installed: bool,
    pub env_installed: bool,
}

fn lookup_status(checks: &Vec<(String, bool)>, name: &str) -> (b: bool)
    ensures
        b == status_of(results(checks@), name@),
{
    let n = checks.len();
    let mut i: usize = 0;
    assert(results(checks@).skip(0) =~= results(checks@));
    while i < n
        invariant
            i <= n == checks@.len(),
            status_of(results(checks@), name@) == status_of(results(checks@).skip(i as int), name@),
        decreases n - i,
    {
        let ghost rest = results(checks@).skip(i as int);
        assert(rest[0] == (checks@[i as int].0@, checks@[i as int].1));
        if equal_ignoring_ascii_case(checks[i].0.as_str(), name) {
            return checks[i].1;
        }
        assert(rest.drop_first() =~= results(checks@).skip(i + 1));
        i = i + 1;
    }
    false
}

/// The details of an entry of the EDA tools pane: the tool (two entries
/// per tool), the action (install on even entries, environment on odd
/// ones), and whether the validation found its binaries and environment.
pub fn tool_details(sub_idx: usize, validation: &ValidationState) -> (d: ToolDetails)
    ensures
        d.tool_name@ == details_tool_name(sub_idx),
        d.action@ == (if sub_idx % 2 == 0 {
            "Install Binary"@
        } else {
            "Recreate Environment"@
        }),
        d.description@ == (if sub_idx % 2 == 0 {
            "Installs the heavy tool binaries."@
        } else {
            "Generates the wrapper scripts in /opt/vlsilab/env."@
        }),
        d.bin_installed == status_of(
            results(validation.tool_binary_status@),
            details_tool_name(sub_idx),
        ),
        d.env_installed == status_of(
            results(validation.tool_env_status@),
            details_tool_name(sub_idx),
        ),
{
    let tool_name = if sub_idx / 2 == 0 {
        "Xilinx"
    } else if sub_idx / 2 == 1 {
        "Cadence"
    } else if sub_idx / 2 == 2 {
        "Silvaco"
    } else {
        "Cadre"
    };
    let install = sub_idx % 2 == 0;
    ToolDetails {
        tool_name,
        action: if install {
            "Install Binary"
        } else {
            "Recreate Environment"
        },
        description: if install {
            "Installs the heavy tool binaries."
        } else {
            "Generates the wrapper scripts in /opt/vlsilab/env."
        },
        bin_installed: lookup_status(&validation.tool_binary_status, tool_name),
        env_installed: lookup_status(&validation.tool_env_status, tool_name),
    }
}

} // verus!
