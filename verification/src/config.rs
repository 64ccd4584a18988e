//! The lab machine's configuration: its number, the account and host
//! names derived from it, and the persisted installation state.

use vstd::prelude::*;
use crate::state::{Entry, StateMap, load_content, render, storable, to_map, lemma_load_render};
use crate::text::{
    decimal, parse_u8, with_decimal, chars_of, parse_u8_chars, fixed_digits, is_digit,
    push_fixed_digits, lemma_fixed_digits, is_ws,
};
use crate::state::is_trimmed;

verus! {

/// Directory that holds the state and log files.
pub const STATE_DIR: &'static str = "/var/log/vlsilab";

/// The persisted installation state.
pub const STATE_FILE: &'static str = "/var/log/vlsilab/install.state";

/// The installer's log file.
pub const LOG_FILE: &'static str = "/var/log/vlsilab/install.log";

/// The shared EDA launcher script that user shells source.
pub const EDA_LAUNCHER: &'static str = "/opt/vlsilab/eda-launcher.sh";

/// Cadence's own generated environment file.
pub const CADENCE_ENV_FILE: &'static str = "/opt/cadence/cadence-env.sh";

/// The sysadmin account of machine `n`.
pub open spec fn sysadmin_name(n: u8) -> Seq<char> {
    "sysadmin309"@ + decimal(n as nat)
}

/// The student account of machine `n`.
pub open spec fn student_name(n: u8) -> Seq<char> {
    "srmist309"@ + decimal(n as nat)
}

/// The fully qualified host name of machine `n`.
pub open spec fn hostname_of(n: u8) -> Seq<char> {
    "vlsilab"@ + decimal(n as nat) + ".ist.srmtrichy.edu.in"@
}

/// The machine number that a state map records, if it records a valid one.
pub open spec fn recorded_machine(m: Map<Seq<char>, Seq<char>>) -> Option<u8> {
    if m.contains_key("MACHINE_NUMBER"@) {
        parse_u8(m["MACHINE_NUMBER"@])
    } else {
        None
    }
}

/// The value stored under `key`, or `default` when there is none.
pub open spec fn get_or(m: Map<Seq<char>, Seq<char>>, key: Seq<char>, default: Seq<char>) -> Seq<
    char,
> {
    if m.contains_key(key) {
        m[key]
    } else {
        default
    }
}

/// Whether the state marks `phase` done.
pub open spec fn phase_done(m: Map<Seq<char>, Seq<char>>, phase: Seq<char>) -> bool {
    m.contains_key(phase) && m[phase] == "DONE"@
}

/// The key that records when `phase` was done.
pub open spec fn time_key(phase: Seq<char>) -> Seq<char> {
    phase + "_TIME"@
}

/// The state after marking `phase` done at `now`.
pub open spec fn record_phase(m: Map<Seq<char>, Seq<char>>, phase: Seq<char>, now: Seq<char>) -> Map<
    Seq<char>,
    Seq<char>,
> {
    m.insert(phase, "DONE"@).insert(time_key(phase), now)
}

/// `path` joined onto `base`, as `PathBuf::join` does it on Unix: an
/// absolute `path` replaces `base`; otherwise a `/` separates the two
/// unless `base` is empty or already ends with one.
pub open spec fn join_path(base: Seq<char>, path: Seq<char>) -> Seq<char> {
    if path.len() > 0 && path[0] == '/' {
        path
    } else if base.len() > 0 && base.last() != '/' {
        base + seq!['/'] + path
    } else {
        base + path
    }
}

/// The directory that holds the tool folders: the recorded `SCRIPT_DIR`,
/// else the current directory, else `.`.
pub open spec fn script_dir(m: Map<Seq<char>, Seq<char>>, current_dir: Option<Seq<char>>) -> Seq<
    char,
> {
    if m.contains_key("SCRIPT_DIR"@) {
        m["SCRIPT_DIR"@]
    } else {
        match current_dir {
            Some(d) => d,
            None => "."@,
        }
    }
}

/// `Some(d@)` for `Some(d)`.
pub open spec fn opt_view(o: Option<&str>) -> Option<Seq<char>> {
    match o {
        Some(d) => Some(d@),
        None => None,
    }
}

/// The state a fresh configuration starts from: the recorded state file,
/// if any, read in, then the current directory, if known, recorded as
/// `SCRIPT_DIR`.
pub open spec fn initial_state(content: Option<Seq<char>>, current_dir: Option<Seq<char>>) -> Map<
    Seq<char>,
    Seq<char>,
> {
    let m = match content {
        Some(c) => load_content(Map::empty(), c),
        None => Map::empty(),
    };
    match current_dir {
        Some(d) => m.insert("SCRIPT_DIR"@, d),
        None => m,
    }
}

/// One line of the installer log.
pub open spec fn log_line_text(timestamp: Seq<char>, msg: Seq<char>) -> Seq<char> {
    timestamp + " - "@ + msg + "\n"@
}

/// What marking a phase done produced: the new state file and the line to
/// append to the log.
pub struct PhaseDone {
    pub state_content: String,
    pub log_line: String,
}

/// The configuration of one lab workstation.
pub struct LabConfig {
    pub machine_number: u8,
    pub sysadmin_user: String,
    pub student_user: String,
    pub hostname_fqdn: String,
    pub state: StateMap,
}

impl Clone for LabConfig {
    /// An equal configuration.
    fn clone(&self) -> (r: Self)
        ensures
            r.machine_number == self.machine_number,
            r.sysadmin_user@ == self.sysadmin_user@,
            r.student_user@ == self.student_user@,
            r.hostname_fqdn@ == self.hostname_fqdn@,
            r.state.pairs() == self.state.pairs(),
            r.state@ == self.state@,
    {
        LabConfig {
            machine_number: self.machine_number,
            sysadmin_user: self.sysadmin_user.clone(),
            student_user: self.student_user.clone(),
            hostname_fqdn: self.hostname_fqdn.clone(),
            state: self.state.clone(),
        }
    }
}

/// A local time written `YYYY-MM-DD HH:MM:SS`, each field zero-padded.
pub open spec fn timestamp_text(year: nat, month: nat, day: nat, hour: nat, minute: nat, second: nat) -> Seq<char> {
    fixed_digits(year, 4) + "-"@ + fixed_digits(month, 2) + "-"@ + fixed_digits(day, 2) + " "@
        + fixed_digits(hour, 2) + ":"@ + fixed_digits(minute, 2) + ":"@ + fixed_digits(second, 2)
}

/// The time at which a phase is recorded and a log line is stamped,
/// written `YYYY-MM-DD HH:MM:SS` from the fields of a local date and time.
/// It is 19 characters long, holds no line break and starts and ends with a
/// digit, so it is stored and read back unchanged.
pub fn format_timestamp(year: u32, month: u32, day: u32, hour: u32, minute: u32, second: u32) -> (r: String)
    requires
        year <= 9999,
        month < 100,
        day < 100,
        hour < 100,
        minute < 100,
        second < 100,
    ensures
        r@ == timestamp_text(year as nat, month as nat, day as nat, hour as nat, minute as nat, second as nat),
        r@.len() == 19,
        !r@.contains('\n'),
        is_trimmed(r@),
{
    let mut s = String::new();
    push_fixed_digits(&mut s, year, 4);
    s.append("-");
    push_fixed_digits(&mut s, month, 2);
    s.append("-");
    push_fixed_digits(&mut s, day, 2);
    s.append(" ");
    push_fixed_digits(&mut s, hour, 2);
    s.append(":");
    push_fixed_digits(&mut s, minute, 2);
    s.append(":");
    push_fixed_digits(&mut s, second, 2);
    proof {
        reveal_strlit("-");
        reveal_strlit(":");
        reveal_strlit(" ");
        reveal_strlit("");
        lemma_fixed_digits(year as nat, 4);
        lemma_fixed_digits(month as nat, 2);
        lemma_fixed_digits(day as nat, 2);
        lemma_fixed_digits(hour as nat, 2);
        lemma_fixed_digits(minute as nat, 2);
        lemma_fixed_digits(second as nat, 2);
        let t = s@;
        let y = fixed_digits(year as nat, 4);
        let mo = fixed_digits(month as nat, 2);
        let d = fixed_digits(day as nat, 2);
        let h = fixed_digits(hour as nat, 2);
        let mi = fixed_digits(minute as nat, 2);
        let se = fixed_digits(second as nat, 2);
        assert(t =~= y + "-"@ + mo + "-"@ + d + " "@ + h + ":"@ + mi + ":"@ + se);
        assert(t.len() == 19);
        assert(t[0] == y[0]);
        assert(t[18] == se[1]);
        assert(is_digit(t[0]));
        assert(is_digit(t[18]));
        assert(!is_ws(t[0]));
        assert(!is_ws(t[18]));
        assert forall|i: int| 0 <= i < 19 implies t[i] != '\n' by {
            if i < 4 {
                assert(t[i] == y[i]);
            } else if 5 <= i < 7 {
                assert(t[i] == mo[i - 5]);
            } else if 8 <= i < 10 {
                assert(t[i] == d[i - 8]);
            } else if 11 <= i < 13 {
                assert(t[i] == h[i - 11]);
            } else if 14 <= i < 16 {
                assert(t[i] == mi[i - 14]);
            } else if 17 <= i < 19 {
                assert(t[i] == se[i - 17]);
            }
        }
    }
    s
}

/// A line of the installer log: the timestamp, ` - `, the message.
pub fn log_line(timestamp: &str, msg: &str) -> (r: String)
    ensures
        r@ == log_line_text(timestamp@, msg@),
{
    let mut s = String::from_str(timestamp);
    s.append(" - ");
    s.append(msg);
    s.append("\n");
    s
}

impl LabConfig {
    /// The configuration of machine `machine_num`: the account and host
    /// names derived from the number, the recorded state file (when there
    /// is one) read in, and the current directory (when it is known)
    /// recorded as `SCRIPT_DIR`.
    pub fn new(
        machine_num: u8,
        _current_user: &str,
        state_content: Option<&str>,
        current_dir: Option<&str>,
    ) -> (c: Self)
        ensures
            c.machine_number == machine_num,
            c.sysadmin_user@ == sysadmin_name(machine_num),
            c.student_user@ == student_name(machine_num),
            c.hostname_fqdn@ == hostname_of(machine_num),
            c.state@ == initial_state(opt_view(state_content), opt_view(current_dir)),
    {
        let mut c = LabConfig::blank(machine_num);
        match state_content {
            Some(content) => c.load_state(content),
            None => {},
        }
        match current_dir {
            Some(d) => {
                let _ = c.save_state_key("SCRIPT_DIR", d);
            },
            None => {},
        }
        c
    }

    /// The configuration of machine `machine_num`, with empty state.
    fn blank(machine_num: u8) -> (c: Self)
        ensures
            c.machine_number == machine_num,
            c.sysadmin_user@ == sysadmin_name(machine_num),
            c.student_user@ == student_name(machine_num),
            c.hostname_fqdn@ == hostname_of(machine_num),
            c.state@ == Map::<Seq<char>, Seq<char>>::empty(),
    {
        let sysadmin_user = with_decimal("sysadmin309", machine_num as u64);
        let student_user = with_decimal("srmist309", machine_num as u64);
        let mut hostname_fqdn = with_decimal("vlsilab", machine_num as u64);
        hostname_fqdn.append(".ist.srmtrichy.edu.in");
        LabConfig {
            machine_number: machine_num,
            sysadmin_user,
            student_user,
            hostname_fqdn,
            state: StateMap::new(),
        }
    }

    /// The configuration that a state file records: `None` when it records
    /// no valid `MACHINE_NUMBER`; missing account and host names default to
    /// those of the recorded machine.
    pub fn load_from_state(content: &str) -> (r: Option<Self>)
        ensures
            ({
                let m = load_content(Map::empty(), content@);
                &&& r is Some <==> recorded_machine(m) is Some
                &&& r matches Some(c) ==> {
                    let n = recorded_machine(m)->0;
                    &&& c.machine_number == n
                    &&& c.sysadmin_user@ == get_or(m, "SYSADMIN_USER"@, sysadmin_name(n))
                    &&& c.student_user@ == get_or(m, "STUDENT_USER"@, student_name(n))
                    &&& c.hostname_fqdn@ == get_or(m, "HOSTNAME"@, hostname_of(n))
                    &&& c.state@ == m
                }
            }),
    {
        let mut state = StateMap::new();
        state.load(content);
        let num_text = match state.get("MACHINE_NUMBER") {
            Some(t) => t,
            None => return None,
        };
        let machine_num = match parse_u8_chars(&chars_of(num_text.as_str())) {
            Some(n) => n,
            None => return None,
        };
        let defaults = LabConfig::blank(machine_num);
        let sysadmin_user = match state.get("SYSADMIN_USER") {
            Some(v) => v,
            None => defaults.sysadmin_user,
        };
        let student_user = match state.get("STUDENT_USER") {
            Some(v) => v,
            None => defaults.student_user,
        };
        let hostname_fqdn = match state.get("HOSTNAME") {
            Some(v) => v,
            None => defaults.hostname_fqdn,
        };
        Some(LabConfig { machine_number: machine_num, sysadmin_user, student_user, hostname_fqdn, state })
    }

    /// The directory the installer runs from: the recorded `SCRIPT_DIR`,
    /// else `current_dir`, else `.`.
    pub fn get_script_dir(&self, current_dir: Option<&str>) -> (r: String)
        ensures
            r@ == script_dir(self.state@, opt_view(current_dir)),
    {
        match self.state.get("SCRIPT_DIR") {
            Some(d) => d,
            None => match current_dir {
                Some(d) => String::from_str(d),
                None => String::from_str("."),
            },
        }
    }

    /// The root directory that holds the tool folders (CADENCE, SILVACO,
    /// XILINX, CADRE, SYNOPSYS): the script directory itself.
    pub fn get_root_dir(&self, current_dir: Option<&str>) -> (r: String)
        ensures
            r@ == script_dir(self.state@, opt_view(current_dir)),
    {
        self.get_script_dir(current_dir)
    }

    /// The folder of one tool under the root directory.
    pub fn get_tool_dir(&self, current_dir: Option<&str>, tool_name: &str) -> (r: String)
        ensures
            r@ == join_path(script_dir(self.state@, opt_view(current_dir)), tool_name@),
    {
        let root = self.get_root_dir(current_dir);
        join(&root, tool_name)
    }

    /// Reads a state file into the state.
    pub fn load_state(&mut self, content: &str)
        ensures
            final(self).state@ == load_content(old(self).state@, content@),
            final(self).machine_number == old(self).machine_number,
            final(self).sysadmin_user == old(self).sysadmin_user,
            final(self).student_user == old(self).student_user,
            final(self).hostname_fqdn == old(self).hostname_fqdn,
    {
        self.state.load(content);
    }

    /// Records `key = val` and returns the state file to write.
    pub fn save_state_key(&mut self, key: &str, val: &str) -> (content: String)
        ensures
            final(self).state@ == old(self).state@.insert(key@, val@),
            content@ == render(final(self).state.pairs()),
            old(self).state.all_storable() && storable((key@, val@))
                ==> final(self).state.all_storable(),
            final(self).machine_number == old(self).machine_number,
            final(self).sysadmin_user == old(self).sysadmin_user,
            final(self).student_user == old(self).student_user,
            final(self).hostname_fqdn == old(self).hostname_fqdn,
    {
        self.state.insert(String::from_str(key), String::from_str(val));
        self.state.render()
    }

    /// The state file as it stands.
    pub fn state_file_content(&self) -> (content: String)
        ensures
            content@ == render(self.state.pairs()),
    {
        self.state.render()
    }

    /// The name of this machine's copy in the shared site configuration:
    /// `machine_N.state`.
    pub fn machine_state_file_name(&self) -> (r: String)
        ensures
            r@ == "machine_"@ + decimal(self.machine_number as nat) + ".state"@,
    {
        let mut s = with_decimal("machine_", self.machine_number as u64);
        s.append(".state");
        s
    }

    /// Marks `phase` done at the time `now`: records `PHASE=DONE` and
    /// `PHASE_TIME=now`, and returns the state file to write and the line
    /// `NOW - [INFO] Phase complete: PHASE` to append to the log. When the
    /// state, the phase and the time are all storable, the file written
    /// reads back as the new state.
    pub fn mark_phase_done(&mut self, phase: &str, now: &str) -> (r: PhaseDone)
        ensures
            final(self).state@ == record_phase(old(self).state@, phase@, now@),
            r.state_content@ == render(final(self).state.pairs()),
            r.log_line@ == log_line_text(now@, "[INFO] Phase complete: "@ + phase@),
            old(self).state.all_storable() && storable((phase@, "DONE"@)) && storable(
                (time_key(phase@), now@),
            ) ==> final(self).state.all_storable() && load_content(
                Map::empty(),
                r.state_content@,
            ) == final(self).state@,
            final(self).machine_number == old(self).machine_number,
            final(self).sysadmin_user == old(self).sysadmin_user,
            final(self).student_user == old(self).student_user,
            final(self).hostname_fqdn == old(self).hostname_fqdn,
    {
        let _ = self.save_state_key(phase, "DONE");
        let mut key = String::from_str(phase);
        key.append("_TIME");
        let state_content = self.save_state_key(key.as_str(), now);
        proof {
            reveal_strlit("_TIME");
            assert(key@ == time_key(phase@));
            if self.state.all_storable() {
                lemma_load_render(self.state.pairs());
            }
        }
        let mut msg = String::from_str("[INFO] Phase complete: ");
        msg.append(phase);
        let log_line = self.append_log(msg.as_str(), now);
        PhaseDone { state_content, log_line }
    }

    /// Whether the state marks `phase` done.
    pub fn is_phase_done(&self, phase: &str) -> (b: bool)
        ensures
            b == phase_done(self.state@, phase@),
    {
        match self.state.get(phase) {
            Some(v) => v == String::from_str("DONE"),
            None => false,
        }
    }

    /// When `phase` was done, if recorded.
    pub fn phase_time(&self, phase: &str) -> (r: Option<String>)
        ensures
            r is Some <==> self.state@.contains_key(time_key(phase@)),
            r matches Some(t) ==> t@ == self.state@[time_key(phase@)],
    {
        let mut key = String::from_str(phase);
        key.append("_TIME");
        self.state.get(key.as_str())
    }

    /// The line to append to the installer log for `msg`, stamped with
    /// `timestamp`: `TIMESTAMP - MSG` and a line break.
    pub fn append_log(&self, msg: &str, timestamp: &str) -> (r: String)
        ensures
            r@ == log_line_text(timestamp@, msg@),
    {
        log_line(timestamp, msg)
    }
}

/// `path` joined onto `base` as a Unix path.
pub fn join(base: &str, path: &str) -> (r: String)
    ensures
        r@ == join_path(base@, path@),
{
    let b = chars_of(base);
    let p = chars_of(path);
    if p.len() > 0 && p[0] == '/' {
        return String::from_str(path);
    }
    let mut s = String::from_str(base);
    if b.len() > 0 && b[b.len() - 1] != '/' {
        s.append("/");
        proof {
            reveal_strlit("/");
        }
    }
    s.append(path);
    s
}

/// A value saved under a key reads back from the state, and the other keys
/// keep their values.
pub proof fn lemma_saved_key_reads_back(
    m: Map<Seq<char>, Seq<char>>,
    key: Seq<char>,
    val: Seq<char>,
    other: Seq<char>,
)
    requires
        other != key,
    ensures
        m.insert(key, val).contains_key(key),
        m.insert(key, val)[key] == val,
        m.insert(key, val).contains_key(other) == m.contains_key(other),
        m.contains_key(other) ==> m.insert(key, val)[other] == m[other],
{
}

/// Marking a phase done makes it count as done, and records the time.
pub proof fn lemma_phase_recorded(m: Map<Seq<char>, Seq<char>>, phase: Seq<char>, now: Seq<char>)
    ensures
        phase_done(record_phase(m, phase, now), phase),
        record_phase(m, phase, now).contains_key(time_key(phase)),
        record_phase(m, phase, now)[time_key(phase)] == now,
{
    reveal_strlit("_TIME");
    assert(time_key(phase).len() == phase.len() + 5);
}

/// A state file that records `MACHINE_NUMBER` as the decimal number `n`
/// reads back as machine `n`, provided every entry is storable.
pub proof fn lemma_machine_number_survives(pairs: Seq<Entry>, n: u8)
    requires
        forall|i: int| 0 <= i < pairs.len() ==> storable(#[trigger] pairs[i]),
        to_map(pairs).contains_key("MACHINE_NUMBER"@),
        to_map(pairs)["MACHINE_NUMBER"@] == decimal(n as nat),
    ensures
        recorded_machine(load_content(Map::empty(), render(pairs))) == Some(n),
{
    lemma_load_render(pairs);
    crate::text::lemma_parse_decimal_u8(n);
}

} // verus!
