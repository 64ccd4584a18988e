//! The lines of the details pane, for each main menu entry, with the style
//! each line is drawn in.

use vstd::prelude::*;
use crate::layout::{status_mark, port_status_label, tool_details, details_tool_name, status_of};
use crate::network::{NetworkState, PortCheck};
use crate::users::LabUser;
use crate::validation::{ValidationState, results};

verus! {

/// How a line of the details pane is drawn.
#[derive(Debug, Clone, Copy, PartialEq, Eq, Structural)]
pub enum LineStyle {
    /// Ordinary text.
    Plain,
    /// A bold section heading.
    Heading,
    /// The bold, coloured name of the selected tool.
    Title,
    /// The highlighted selected action.
    Highlight,
}

/// One line of the details pane.
pub struct DetailLine {
    pub text: String,
    pub style: LineStyle,
}

/// Lines as plain values.
pub open spec fn line_views(v: Seq<DetailLine>) -> Seq<(Seq<char>, LineStyle)> {
    v.map_values(|l: DetailLine| (l.text@, l.style))
}

/// The mark of a passed or failed check.
pub open spec fn mark(ok: bool) -> Seq<char> {
    if ok {
        "✔"@
    } else {
        "✖"@
    }
}

/// The label of a probed port.
pub open spec fn port_label(reachable: Option<bool>) -> Seq<char> {
    match reachable {
        Some(true) => "✔ UP"@,
        Some(false) => "✖ DOWN"@,
        None => "? UNKNOWN"@,
    }
}

/// A check shown as ` NAME: MARK`, or as ` NAME [MARK]` when `bracket`.
pub open spec fn check_text(name: Seq<char>, ok: bool, bracket: bool) -> Seq<char> {
    if bracket {
        " "@ + name + " ["@ + mark(ok) + "]"@
    } else {
        " "@ + name + ": "@ + mark(ok)
    }
}

/// One plain line per check, in order.
pub open spec fn check_lines(checks: Seq<(Seq<char>, bool)>, bracket: bool) -> Seq<
    (Seq<char>, LineStyle),
> {
    checks.map_values(|p: (Seq<char>, bool)| (check_text(p.0, p.1, bracket), LineStyle::Plain))
}

/// The text of a probe result that may be missing.
pub open spec fn or_unknown(v: Option<String>) -> Seq<char> {
    match v {
        Some(s) => s@,
        None => "Unknown"@,
    }
}

/// The line of one probed port.
pub open spec fn port_text(p: PortCheck) -> Seq<char> {
    "  "@ + p.tool_name@ + ": "@ + port_label(p.is_reachable)
}

/// The line of one lab account.
pub open spec fn user_text(u: LabUser) -> Seq<char> {
    " "@ + u.username@ + " ("@ + u.role@ + ") - .bashrc: "@ + mark(u.bashrc_configured)
}

fn line(text: String, style: LineStyle) -> (l: DetailLine)
    ensures
        l.text@ == text@,
        l.style == style,
{
    DetailLine { text, style }
}

fn push_line(lines: &mut Vec<DetailLine>, text: &str, style: LineStyle)
    ensures
        line_views(final(lines)@) == line_views(old(lines)@).push((text@, style)),
{
    let ghost before = line_views(lines@);
    lines.push(line(String::from_str(text), style));
    assert(line_views(lines@) =~= before.push((text@, style)));
}

fn check_line(name: &String, ok: bool, bracket: bool) -> (l: DetailLine)
    ensures
        l.text@ == check_text(name@, ok, bracket),
        l.style == LineStyle::Plain,
{
    let mut s = String::from_str(" ");
    s.append(name.as_str());
    if bracket {
        s.append(" [");
        s.append(status_mark(ok));
        s.append("]");
    } else {
        s.append(": ");
        s.append(status_mark(ok));
    }
    line(s, LineStyle::Plain)
}

fn push_checks(lines: &mut Vec<DetailLine>, checks: &Vec<(String, bool)>, bracket: bool)
    ensures
        line_views(final(lines)@) == line_views(old(lines)@) + check_lines(results(checks@), bracket),
{
    let ghost start = line_views(lines@);
    let n = checks.len();
    for i in 0..n
        invariant
            n == checks@.len(),
            line_views(lines@) == start + check_lines(results(checks@), bracket).take(i as int),
    {
        let ghost before = line_views(lines@);
        let l = check_line(&checks[i].0, checks[i].1, bracket);
        lines.push(l);
        let ghost item = (check_text(checks@[i as int].0@, checks@[i as int].1, bracket), LineStyle::Plain);
        assert(line_views(lines@) =~= before.push(item));
        assert(check_lines(results(checks@), bracket).take(i + 1) =~= check_lines(
            results(checks@),
            bracket,
        ).take(i as int).push(item));
    }
    assert(check_lines(results(checks@), bracket).take(n as int) =~= check_lines(
        results(checks@),
        bracket,
    ));
}

/// The dashboard entry: the tools found installed, then the accounts whose
/// `.bashrc` was checked (or a note that none were found yet).
pub fn dashboard_lines(v: &ValidationState) -> (r: Vec<DetailLine>)
    ensures
        line_views(r@) == seq![("--- Installed EDA Tools ---"@, LineStyle::Heading)] + check_lines(
            results(v.tool_binary_status@),
            false,
        ) + seq![(""@, LineStyle::Plain), ("--- Configured Users (.bashrc) ---"@, LineStyle::Heading)]
            + (if v.configured_users@.len() == 0 {
            seq![(" No users found or checking..."@, LineStyle::Plain)]
        } else {
            check_lines(results(v.configured_users@), false)
        }),
{
    let mut r: Vec<DetailLine> = Vec::new();
    push_line(&mut r, "--- Installed EDA Tools ---", LineStyle::Heading);
    push_checks(&mut r, &v.tool_binary_status, false);
    push_line(&mut r, "", LineStyle::Plain);
    push_line(&mut r, "--- Configured Users (.bashrc) ---", LineStyle::Heading);
    let ghost mid = line_views(r@);
    if v.configured_users.len() == 0 {
        push_line(&mut r, " No users found or checking...", LineStyle::Plain);
    } else {
        push_checks(&mut r, &v.configured_users, false);
    }
    r
}

/// The pre-requisites entry: how to install what is missing, then each
/// package with its mark.
pub fn packages_lines(v: &ValidationState) -> (r: Vec<DetailLine>)
    ensures
        line_views(r@) == seq![
            ("System Package Status:"@, LineStyle::Heading),
            (
                "Press [Enter] on Execute PreInstall in the middle pane to install missing deps."@,
                LineStyle::Plain,
            ),
        ] + check_lines(results(v.prereqs_details@), true),
{
    let mut r: Vec<DetailLine> = Vec::new();
    push_line(&mut r, "System Package Status:", LineStyle::Heading);
    push_line(
        &mut r,
        "Press [Enter] on Execute PreInstall in the middle pane to install missing deps.",
        LineStyle::Plain,
    );
    push_checks(&mut r, &v.prereqs_details, true);
    r
}

/// The applications entry: each essential application with its mark.
pub fn apps_lines(v: &ValidationState) -> (r: Vec<DetailLine>)
    ensures
        line_views(r@) == seq![("Essential Apps Status:"@, LineStyle::Heading)] + check_lines(
            results(v.apps_details@),
            true,
        ),
{
    let mut r: Vec<DetailLine> = Vec::new();
    push_line(&mut r, "Essential Apps Status:", LineStyle::Heading);
    push_checks(&mut r, &v.apps_details, true);
    r
}

/// The EDA tools entry: the selected tool, whether its binaries and its
/// environment were found, and the selected action.
pub fn tool_lines(sub_idx: usize, v: &ValidationState) -> (r: Vec<DetailLine>)
    ensures
        ({
            let name = details_tool_name(sub_idx);
            let install = sub_idx % 2 == 0;
            line_views(r@) == seq![
                ("Tool: "@ + name, LineStyle::Title),
                (
                    "Binary Present: "@ + mark(status_of(results(v.tool_binary_status@), name)),
                    LineStyle::Plain,
                ),
                (
                    "Environment Script: "@ + mark(status_of(results(v.tool_env_status@), name)),
                    LineStyle::Plain,
                ),
                (""@, LineStyle::Plain),
                (
                    "Selected Action: "@ + (if install {
                        "Install Binary"@
                    } else {
                        "Recreate Environment"@
                    }),
                    LineStyle::Highlight,
                ),
                (
                    if install {
                        "Installs the heavy tool binaries."@
                    } else {
                        "Generates the wrapper scripts in /opt/vlsilab/env."@
                    },
                    LineStyle::Plain,
                ),
                ("Press [Enter] while focused on the middle pane to execute."@, LineStyle::Plain),
            ]
        }),
{
    let d = tool_details(sub_idx, v);
    let mut r: Vec<DetailLine> = Vec::new();
    let mut title = String::from_str("Tool: ");
    title.append(d.tool_name);
    r.push(line(title, LineStyle::Title));
    let mut bin = String::from_str("Binary Present: ");
    bin.append(status_mark(d.bin_installed));
    r.push(line(bin, LineStyle::Plain));
    let mut env = String::from_str("Environment Script: ");
    env.append(status_mark(d.env_installed));
    r.push(line(env, LineStyle::Plain));
    r.push(line(String::new(), LineStyle::Plain));
    let mut action = String::from_str("Selected Action: ");
    action.append(d.action);
    r.push(line(action, LineStyle::Highlight));
    r.push(line(String::from_str(d.description), LineStyle::Plain));
    r.push(
        line(
            String::from_str("Press [Enter] while focused on the middle pane to execute."),
            LineStyle::Plain,
        ),
    );
    proof {
        reveal_strlit("");
        let name = details_tool_name(sub_idx);
        assert(r@[0].text@ == "Tool: "@ + name);
        assert(r@[1].text@ == "Binary Present: "@ + mark(status_of(results(v.tool_binary_status@), name)));
        assert(r@[2].text@ == "Environment Script: "@ + mark(status_of(results(v.tool_env_status@), name)));
        assert(r@[3].text@ == ""@);
        assert(r@[4].text@ == "Selected Action: "@ + (if sub_idx % 2 == 0 {
                        "Install Binary"@
                    } else {
                        "Recreate Environment"@
                    }));
    }
    assert(line_views(r@) =~= seq![
        (r@[0].text@, r@[0].style),
        (r@[1].text@, r@[1].style),
        (r@[2].text@, r@[2].style),
        (r@[3].text@, r@[3].style),
        (r@[4].text@, r@[4].style),
        (r@[5].text@, r@[5].style),
        (r@[6].text@, r@[6].style),
    ]);
    r
}

/// The network entry: the local addresses, then each license port with
/// whether it answered.
pub fn network_lines(n: &NetworkState) -> (r: Vec<DetailLine>)
    ensures
        line_views(r@) == seq![
            ("Local Network:"@, LineStyle::Heading),
            ("  Private IP: "@ + or_unknown(n.private_ip), LineStyle::Plain),
            ("  Default Gateway: "@ + or_unknown(n.gateway_ip), LineStyle::Plain),
            (""@, LineStyle::Plain),
            ("Port Checks:"@, LineStyle::Heading),
        ] + n.port_checks@.map_values(|p: PortCheck| (port_text(p), LineStyle::Plain)),
{
    let mut r: Vec<DetailLine> = Vec::new();
    push_line(&mut r, "Local Network:", LineStyle::Heading);
    let mut ip = String::from_str("  Private IP: ");
    match &n.private_ip {
        Some(s) => ip.append(s.as_str()),
        None => ip.append("Unknown"),
    }
    let ghost b0 = line_views(r@);
    r.push(line(ip, LineStyle::Plain));
    assert(line_views(r@) =~= b0.push(("  Private IP: "@ + or_unknown(n.private_ip), LineStyle::Plain)));
    let mut gw = String::from_str("  Default Gateway: ");
    match &n.gateway_ip {
        Some(s) => gw.append(s.as_str()),
        None => gw.append("Unknown"),
    }
    let ghost b1 = line_views(r@);
    r.push(line(gw, LineStyle::Plain));
    assert(line_views(r@) =~= b1.push(("  Default Gateway: "@ + or_unknown(n.gateway_ip), LineStyle::Plain)));
    push_line(&mut r, "", LineStyle::Plain);
    push_line(&mut r, "Port Checks:", LineStyle::Heading);
    let ghost start = line_views(r@);
    let ghost ports = n.port_checks@.map_values(|p: PortCheck| (port_text(p), LineStyle::Plain));
    let k = n.port_checks.len();
    for i in 0..k
        invariant
            k == n.port_checks@.len(),
            ports == n.port_checks@.map_values(|p: PortCheck| (port_text(p), LineStyle::Plain)),
            line_views(r@) == start + ports.take(i as int),
    {
        let pc = &n.port_checks[i];
        let mut s = String::from_str("  ");
        s.append(pc.tool_name.as_str());
        s.append(": ");
        s.append(port_status_label(pc.is_reachable));
        let ghost before = line_views(r@);
        r.push(line(s, LineStyle::Plain));
        assert(line_views(r@) =~= before.push(ports[i as int]));
        assert(ports.take(i + 1) =~= ports.take(i as int).push(ports[i as int]));
    }
    assert(ports.take(k as int) =~= ports);
    r
}

/// The users entry: each of the machine's accounts with its role and
/// whether its `.bashrc` sources the launcher.
pub fn user_lines(users: &Vec<LabUser>) -> (r: Vec<DetailLine>)
    ensures
        line_views(r@) == seq![("Current Lab Users:"@, LineStyle::Heading)] + users@.map_values(
            |u: LabUser| (user_text(u), LineStyle::Plain),
        ),
{
    let mut r: Vec<DetailLine> = Vec::new();
    push_line(&mut r, "Current Lab Users:", LineStyle::Heading);
    let ghost start = line_views(r@);
    let ghost all = users@.map_values(|u: LabUser| (user_text(u), LineStyle::Plain));
    let k = users.len();
    for i in 0..k
        invariant
            k == users@.len(),
            all == users@.map_values(|u: LabUser| (user_text(u), LineStyle::Plain)),
            line_views(r@) == start + all.take(i as int),
    {
        let u = &users[i];
        let mut s = String::from_str(" ");
        s.append(u.username.as_str());
        s.append(" (");
        s.append(u.role.as_str());
        s.append(") - .bashrc: ");
        s.append(status_mark(u.bashrc_configured));
        let ghost before = line_views(r@);
        r.push(line(s, LineStyle::Plain));
        assert(line_views(r@) =~= before.push(all[i as int]));
        assert(all.take(i + 1) =~= all.take(i as int).push(all[i as int]));
    }
    assert(all.take(k as int) =~= all);
    r
}

} // verus!
