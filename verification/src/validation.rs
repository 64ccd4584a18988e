//! System validation: the packages, applications and tool folders the
//! dashboard checks, and the state those checks fill in.

use vstd::prelude::*;
use crate::text::{chars_of, split_chars, split_on, string_of, trim, trim_vec, views};

verus! {

/// What the system validation found.
pub struct ValidationState {
    pub is_checking: bool,
    pub prereqs_met: bool,
    pub essential_apps_met: bool,
    pub prereqs_details: Vec<(String, bool)>,
    pub apps_details: Vec<(String, bool)>,
    pub tool_binary_status: Vec<(String, bool)>,
    pub tool_env_status: Vec<(String, bool)>,
    pub configured_users: Vec<(String, bool)>,
}

/// Named results as plain values.
pub open spec fn results(v: Seq<(String, bool)>) -> Seq<(Seq<char>, bool)> {
    v.map_values(|p: (String, bool)| (p.0@, p.1))
}

/// Whether every named check passed.
pub open spec fn all_passed(v: Seq<(Seq<char>, bool)>) -> bool {
    forall|i: int| 0 <= i < v.len() ==> (#[trigger] v[i]).1
}

/// The names of named results, in order.
pub open spec fn result_names(v: Seq<(Seq<char>, bool)>) -> Seq<Seq<char>> {
    v.map_values(|p: (Seq<char>, bool)| p.0)
}

/// Each name paired with the finding at the same place.
pub open spec fn paired(names: Seq<Seq<char>>, found: Seq<bool>) -> Seq<(Seq<char>, bool)> {
    Seq::new(names.len(), |i: int| (names[i], found[i]))
}

/// The packages the validation checks, in order.
pub open spec fn prerequisite_names() -> Seq<Seq<char>> {
    seq!["epel-release"@, "gcc"@, "libXp"@, "libnsl"@]
}

/// The applications the validation checks, by display name, in order.
pub open spec fn essential_app_names() -> Seq<Seq<char>> {
    seq!["Google Chrome"@, "VS Code"@, "AnyDesk"@]
}

/// The tool families, as the validation lists them.
pub open spec fn tool_names() -> Seq<Seq<char>> {
    seq!["Xilinx"@, "Cadence"@, "Silvaco"@, "CADRE"@]
}

fn pair_up(names: &Vec<&'static str>, found: &Vec<bool>) -> (r: Vec<(String, bool)>)
    requires
        names.len() == found.len(),
    ensures
        results(r@) == paired(names@.map_values(|n: &str| n@), found@),
{
    let mut r: Vec<(String, bool)> = Vec::new();
    let k = names.len();
    let ghost ns = names@.map_values(|n: &str| n@);
    for i in 0..k
        invariant
            k == names@.len() == found@.len(),
            ns == names@.map_values(|n: &str| n@),
            results(r@) == paired(ns, found@).take(i as int),
    {
        let ghost before = results(r@);
        r.push((String::from_str(names[i]), found[i]));
        assert(results(r@) =~= before.push((names@[i as int]@, found@[i as int])));
        assert(paired(ns, found@).take(i + 1) =~= paired(ns, found@).take(i as int).push(
            (names@[i as int]@, found@[i as int]),
        ));
    }
    assert(paired(ns, found@).take(k as int) =~= paired(ns, found@));
    r
}

fn unchecked(names: &Vec<&'static str>) -> (r: Vec<(String, bool)>)
    ensures
        results(r@) == names@.map_values(|n: &str| (n@, false)),
{
    let mut r: Vec<(String, bool)> = Vec::new();
    let k = names.len();
    for i in 0..k
        invariant
            k == names@.len(),
            results(r@) == names@.map_values(|n: &str| (n@, false)).take(i as int),
    {
        let ghost before = results(r@);
        r.push((String::from_str(names[i]), false));
        assert(results(r@) =~= before.push((names@[i as int]@, false)));
        assert(names@.map_values(|n: &str| (n@, false)).take(i + 1) =~= names@.map_values(
            |n: &str| (n@, false),
        ).take(i as int).push((names@[i as int]@, false)));
    }
    assert(names@.map_values(|n: &str| (n@, false)).take(k as int) =~= names@.map_values(
        |n: &str| (n@, false),
    ));
    r
}

/// Whether every named check passed.
pub fn all_ok(v: &Vec<(String, bool)>) -> (b: bool)
    ensures
        b == all_passed(results(v@)),
{
    let n = v.len();
    for i in 0..n
        invariant
            n == v@.len(),
            forall|j: int| 0 <= j < i ==> (#[trigger] results(v@)[j]).1,
    {
        if !v[i].1 {
            assert(!results(v@)[i as int].1);
            return false;
        }
    }
    true
}

impl ValidationState {
    /// Nothing checked yet: no packages or applications listed, every tool
    /// listed as absent, checks running.
    pub fn new() -> (s: Self)
        ensures
            s.is_checking,
            !s.prereqs_met,
            !s.essential_apps_met,
            s.prereqs_details@.len() == 0,
            s.apps_details@.len() == 0,
            results(s.tool_binary_status@) == tool_names().map_values(|n: Seq<char>| (n, false)),
            results(s.tool_env_status@) == tool_names().map_values(|n: Seq<char>| (n, false)),
            result_names(results(s.tool_binary_status@)) == tool_names(),
            result_names(results(s.tool_env_status@)) == tool_names(),
            s.configured_users@.len() == 0,
    {
        let names = vec!["Xilinx", "Cadence", "Silvaco", "CADRE"];
        let bins = unchecked(&names);
        let envs = unchecked(&names);
        assert(names@.map_values(|n: &str| (n@, false)) =~= tool_names().map_values(
            |n: Seq<char>| (n, false),
        ));
        assert(result_names(tool_names().map_values(|n: Seq<char>| (n, false))) =~= tool_names());
        ValidationState {
            is_checking: true,
            prereqs_met: false,
            essential_apps_met: false,
            prereqs_details: Vec::new(),
            apps_details: Vec::new(),
            tool_binary_status: bins,
            tool_env_status: envs,
            configured_users: Vec::new(),
        }
    }

    /// Records a finished validation run: the details as found, each
    /// summary true exactly when every check under it passed.
    pub fn record(
        &mut self,
        prereqs: Vec<(String, bool)>,
        apps: Vec<(String, bool)>,
        binaries: Vec<(String, bool)>,
        environments: Vec<(String, bool)>,
        users: Vec<(String, bool)>,
    )
        ensures
            !final(self).is_checking,
            final(self).prereqs_met == all_passed(results(prereqs@)),
            final(self).essential_apps_met == all_passed(results(apps@)),
            final(self).prereqs_details == prereqs,
            final(self).apps_details == apps,
            final(self).tool_binary_status == binaries,
            final(self).tool_env_status == environments,
            final(self).configured_users == users,
    {
        self.prereqs_met = all_ok(&prereqs);
        self.essential_apps_met = all_ok(&apps);
        self.prereqs_details = prereqs;
        self.apps_details = apps;
        self.tool_binary_status = binaries;
        self.tool_env_status = environments;
        self.configured_users = users;
        self.is_checking = false;
    }
}

impl ValidationState {
    /// Records a finished validation run from what each check found: the
    /// packages, the applications and the tool families keep their fixed
    /// names and order, each paired with its finding; each summary is true
    /// exactly when every check under it passed.
    pub fn record_checks(
        &mut self,
        prereqs_found: Vec<bool>,
        apps_found: Vec<bool>,
        binaries_found: Vec<bool>,
        environments_found: Vec<bool>,
        users: Vec<(String, bool)>,
    )
        requires
            prereqs_found.len() == 4,
            apps_found.len() == 3,
            binaries_found.len() == 4,
            environments_found.len() == 4,
        ensures
            !final(self).is_checking,
            results(final(self).prereqs_details@) == paired(prerequisite_names(), prereqs_found@),
            results(final(self).apps_details@) == paired(essential_app_names(), apps_found@),
            results(final(self).tool_binary_status@) == paired(tool_names(), binaries_found@),
            results(final(self).tool_env_status@) == paired(tool_names(), environments_found@),
            result_names(results(final(self).tool_binary_status@)) == tool_names(),
            result_names(results(final(self).tool_env_status@)) == tool_names(),
            final(self).prereqs_met == all_passed(results(final(self).prereqs_details@)),
            final(self).essential_apps_met == all_passed(results(final(self).apps_details@)),
            final(self).configured_users == users,
    {
        let pkgs = prerequisite_packages();
        assert(pkgs@.map_values(|n: &str| n@) =~= prerequisite_names());
        let prereqs = pair_up(&pkgs, &prereqs_found);
        let app_list = essential_apps();
        let mut app_names: Vec<&'static str> = Vec::new();
        assert(app_list@.len() == app_list@.map_values(|p: (&str, &str)| (p.0@, p.1@)).len());
        for i in 0..app_list.len()
            invariant
                app_list@.len() == 3,
                app_list@.map_values(|p: (&str, &str)| (p.0@, p.1@)) == seq![
                    ("Google Chrome"@, "google-chrome"@),
                    ("VS Code"@, "code"@),
                    ("AnyDesk"@, "anydesk"@),
                ],
                app_names@.len() == i,
                forall|j: int| 0 <= j < i ==> (#[trigger] app_names@[j])@ == app_list@[j].0@,
        {
            app_names.push(app_list[i].0);
        }
        proof {
            let ms = app_list@.map_values(|p: (&str, &str)| (p.0@, p.1@));
            assert(ms[0].0 == app_list@[0].0@);
            assert(ms[1].0 == app_list@[1].0@);
            assert(ms[2].0 == app_list@[2].0@);
            assert(app_names@.map_values(|n: &str| n@) =~= essential_app_names());
        }
        let apps = pair_up(&app_names, &apps_found);
        let tools = vec!["Xilinx", "Cadence", "Silvaco", "CADRE"];
        assert(tools@.map_values(|n: &str| n@) =~= tool_names());
        let binaries = pair_up(&tools, &binaries_found);
        let environments = pair_up(&tools, &environments_found);
        proof {
            assert(result_names(paired(tool_names(), binaries_found@)) =~= tool_names());
            assert(result_names(paired(tool_names(), environments_found@)) =~= tool_names());
        }
        self.record(prereqs, apps, binaries, environments, users);
    }
}

/// The system packages the pre-install needs.
pub fn prerequisite_packages() -> (r: Vec<&'static str>)
    ensures
        r@.map_values(|s: &str| s@) == seq!["epel-release"@, "gcc"@, "libXp"@, "libnsl"@],
{
    let r = vec!["epel-release", "gcc", "libXp", "libnsl"];
    assert(r@.map_values(|s: &str| s@) =~= seq!["epel-release"@, "gcc"@, "libXp"@, "libnsl"@]);
    r
}

/// The essential applications, by display name and command.
pub fn essential_apps() -> (r: Vec<(&'static str, &'static str)>)
    ensures
        r@.map_values(|p: (&str, &str)| (p.0@, p.1@)) == seq![
            ("Google Chrome"@, "google-chrome"@),
            ("VS Code"@, "code"@),
            ("AnyDesk"@, "anydesk"@),
        ],
{
    let r = vec![("Google Chrome", "google-chrome"), ("VS Code", "code"), ("AnyDesk", "anydesk")];
    assert(r@.map_values(|p: (&str, &str)| (p.0@, p.1@)) =~= seq![
        ("Google Chrome"@, "google-chrome"@),
        ("VS Code"@, "code"@),
        ("AnyDesk"@, "anydesk"@),
    ]);
    r
}

/// Where each tool family installs itself.
pub fn tool_install_dirs() -> (r: Vec<(&'static str, &'static str)>)
    ensures
        r@.map_values(|p: (&str, &str)| (p.0@, p.1@)) == seq![
            ("Xilinx"@, "/opt/Xilinx"@),
            ("Cadence"@, "/opt/cadence"@),
            ("Silvaco"@, "/opt/sedatools"@),
            ("CADRE"@, "/opt/CADRE"@),
        ],
{
    let r = vec![
        ("Xilinx", "/opt/Xilinx"),
        ("Cadence", "/opt/cadence"),
        ("Silvaco", "/opt/sedatools"),
        ("CADRE", "/opt/CADRE"),
    ];
    assert(r@.map_values(|p: (&str, &str)| (p.0@, p.1@)) =~= seq![
        ("Xilinx"@, "/opt/Xilinx"@),
        ("Cadence"@, "/opt/cadence"@),
        ("Silvaco"@, "/opt/sedatools"@),
        ("CADRE"@, "/opt/CADRE"@),
    ]);
    r
}

/// The code of `c` with ASCII capitals lowered.
pub open spec fn ascii_lower_code(c: char) -> u32 {
    if 'A' <= c && c <= 'Z' {
        (c as u32 + 32) as u32
    } else {
        c as u32
    }
}

/// Whether `a` and `b` are equal up to ASCII case, as
/// `str::eq_ignore_ascii_case` decides it.
pub open spec fn eq_ignore_ascii_case(a: Seq<char>, b: Seq<char>) -> bool {
    a.len() == b.len() && forall|i: int|
        0 <= i < a.len() ==> ascii_lower_code(#[trigger] a[i]) == ascii_lower_code(b[i])
}

fn lower_code(c: char) -> (r: u32)
    ensures
        r == ascii_lower_code(c),
{
    if 'A' <= c && c <= 'Z' {
        (c as u32) + 32
    } else {
        c as u32
    }
}

/// Whether `a` and `b` are equal up to ASCII case.
pub fn equal_ignoring_ascii_case(a: &str, b: &str) -> (r: bool)
    ensures
        r == eq_ignore_ascii_case(a@, b@),
{
    let x = chars_of(a);
    let y = chars_of(b);
    if x.len() != y.len() {
        return false;
    }
    let n = x.len();
    for i in 0..n
        invariant
            n == x@.len() == y@.len(),
            x@ == a@,
            y@ == b@,
            forall|j: int| 0 <= j < i ==> ascii_lower_code(#[trigger] x@[j]) == ascii_lower_code(
                y@[j],
            ),
    {
        if lower_code(x[i]) != lower_code(y[i]) {
            return false;
        }
    }
    true
}

/// The environment file whose presence shows that a tool is set up:
/// Cadence keeps its own generated file; the other tools are defined in the
/// shared launcher.
pub fn env_file_for(tool_name: &str) -> (r: &'static str)
    ensures
        r@ == (if eq_ignore_ascii_case(tool_name@, "Cadence"@) {
            "/opt/cadence/cadence-env.sh"@
        } else {
            "/opt/vlsilab/eda-launcher.sh"@
        }),
{
    if equal_ignoring_ascii_case(tool_name, "Cadence") {
        crate::config::CADENCE_ENV_FILE
    } else {
        crate::config::EDA_LAUNCHER
    }
}

/// The non-blank lines of `lines`, trimmed.
pub open spec fn nonblank_lines(lines: Seq<Seq<char>>) -> Seq<Seq<char>>
    decreases lines.len(),
{
    if lines.len() == 0 {
        Seq::empty()
    } else if trim(lines.last()).len() > 0 {
        nonblank_lines(lines.drop_last()).push(trim(lines.last()))
    } else {
        nonblank_lines(lines.drop_last())
    }
}

/// The account names in the output of the account listing: its non-blank
/// lines, trimmed.
pub fn parse_user_names(output: &str) -> (r: Vec<String>)
    ensures
        r@.map_values(|s: String| s@) == nonblank_lines(split_on(output@, '\n')),
{
    let lines = split_chars(&chars_of(output), '\n');
    let mut r: Vec<String> = Vec::new();
    let n = lines.len();
    for i in 0..n
        invariant
            n == lines@.len(),
            views(lines@) == split_on(output@, '\n'),
            r@.map_values(|s: String| s@) == nonblank_lines(views(lines@).take(i as int)),
    {
        let ghost before = r@.map_values(|s: String| s@);
        let ghost t = views(lines@).take(i + 1);
        assert(t.drop_last() =~= views(lines@).take(i as int));
        assert(t.last() == lines@[i as int]@);
        let name = trim_vec(&lines[i]);
        if name.len() > 0 {
            let s = string_of(&name);
            r.push(s);
            assert(r@.map_values(|s: String| s@) =~= before.push(name@));
        }
    }
    assert(views(lines@).take(n as int) =~= views(lines@));
    r
}

} // verus!
