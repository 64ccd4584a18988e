//! Lab user accounts and the shell start-up line that makes the EDA tools
//! available to them.

use vstd::prelude::*;
use crate::text::{contains_seq, occurs_at, str_contains};

verus! {

/// One lab account as the dashboard lists it.
pub struct LabUser {
    pub username: String,
    /// "Student", "Faculty", "Staff" or "Guest".
    pub role: String,
    /// Registration number or staff ID.
    pub identifier: String,
    pub exists: bool,
    pub bashrc_configured: bool,
}

/// What the system reports of one account.
#[derive(Debug, Clone, Copy, PartialEq, Eq, Structural)]
pub struct UserStatus {
    pub exists: bool,
    pub bashrc_configured: bool,
}

/// The launcher script that a configured `.bashrc` sources.
pub open spec fn launcher_path() -> Seq<char> {
    "/opt/vlsilab/eda-launcher.sh"@
}

/// The block appended to a `.bashrc` to source the launcher.
pub open spec fn launcher_entry() -> Seq<char> {
    "\n# Source VLSI Lab EDA Tool Launcher\nif [ -f /opt/vlsilab/eda-launcher.sh ]; then\n    source /opt/vlsilab/eda-launcher.sh\nfi\n"@
}

/// The path of a user's `.bashrc`.
pub fn bashrc_path(username: &str) -> (r: String)
    ensures
        r@ == "/home/"@ + username@ + "/.bashrc"@,
{
    let mut s = String::from_str("/home/");
    s.append(username);
    s.append("/.bashrc");
    s
}

/// Whether a `.bashrc` already sources the launcher: it mentions the
/// launcher's path anywhere.
pub fn bashrc_has_launcher(content: &str) -> (b: bool)
    ensures
        b == contains_seq(content@, launcher_path()),
{
    str_contains(content, "/opt/vlsilab/eda-launcher.sh")
}

/// The `.bashrc` to write so that it sources the launcher: `None` when it
/// already does, else the old content followed by the launcher block.
pub fn bashrc_update(content: &str) -> (r: Option<String>)
    ensures
        r is None <==> contains_seq(content@, launcher_path()),
        r matches Some(s) ==> s@ == content@ + launcher_entry(),
{
    if bashrc_has_launcher(content) {
        None
    } else {
        let mut s = String::from_str(content);
        s.append(
            "\n# Source VLSI Lab EDA Tool Launcher\nif [ -f /opt/vlsilab/eda-launcher.sh ]; then\n    source /opt/vlsilab/eda-launcher.sh\nfi\n",
        );
        Some(s)
    }
}

/// The comment that `useradd` records for a lab account.
pub fn account_comment(role: &str, identifier: &str) -> (r: String)
    ensures
        r@ == "VLSI Lab "@ + role@ + " ["@ + identifier@ + "]"@,
{
    let mut s = String::from_str("VLSI Lab ");
    s.append(role);
    s.append(" [");
    s.append(identifier);
    s.append("]");
    s
}

/// The arguments of `useradd` that create a lab account with a home
/// directory, bash as its shell and the account comment.
pub fn useradd_args(username: &str, role: &str, identifier: &str) -> (r: Vec<String>)
    ensures
        r@.map_values(|s: String| s@) == seq![
            "-m"@,
            "-s"@,
            "/bin/bash"@,
            "-c"@,
            "VLSI Lab "@ + role@ + " ["@ + identifier@ + "]"@,
            username@,
        ],
{
    let mut r: Vec<String> = Vec::new();
    r.push(String::from_str("-m"));
    r.push(String::from_str("-s"));
    r.push(String::from_str("/bin/bash"));
    r.push(String::from_str("-c"));
    r.push(account_comment(role, identifier));
    r.push(String::from_str(username));
    assert(r@.map_values(|s: String| s@) =~= seq![
        "-m"@,
        "-s"@,
        "/bin/bash"@,
        "-c"@,
        "VLSI Lab "@ + role@ + " ["@ + identifier@ + "]"@,
        username@,
    ]);
    r
}

/// Once the launcher block is appended, the `.bashrc` counts as configured,
/// so a second update leaves it alone.
pub proof fn lemma_update_configures(content: Seq<char>)
    ensures
        contains_seq(content + launcher_entry(), launcher_path()),
{
    reveal_strlit("/opt/vlsilab/eda-launcher.sh");
    reveal_strlit(
        "\n# Source VLSI Lab EDA Tool Launcher\nif [ -f /opt/vlsilab/eda-launcher.sh ]; then\n    source /opt/vlsilab/eda-launcher.sh\nfi\n",
    );
    let full = content + launcher_entry();
    let at: int = content.len() + 45int;
    assert(launcher_entry().subrange(45, 73) =~= launcher_path());
    assert(full.subrange(at, at + 28) =~= launcher_entry().subrange(45, 73));
    assert(occurs_at(full, launcher_path(), at));
}

} // verus!
