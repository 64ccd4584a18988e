//! Network diagnostics: the license-server ports to probe, the state the
//! probes fill in, and the readers of their raw output.

use vstd::prelude::*;
use crate::text::{
    chars_of, contains_chars, contains_seq, decimal, find_chars, find_seq, is_ws, is_whitespace,
    slice_vec, string_of, trim, trim_vec, with_decimal,
};

verus! {

/// One license-server port to probe.
pub struct PortCheck {
    pub tool_name: String,
    pub port: u16,
    /// `None` until probed.
    pub is_reachable: Option<bool>,
}

/// What the network diagnostics know so far.
pub struct NetworkState {
    pub is_checking: bool,
    pub whitelisted_ip: Option<String>,
    pub private_ip: Option<String>,
    pub gateway_ip: Option<String>,
    pub dns_c2s_up: Option<bool>,
    pub direct_ip_up: Option<bool>,
    pub port_checks: Vec<PortCheck>,
}

/// The license-server ports, by tool.
pub open spec fn license_ports() -> Seq<(Seq<char>, u16)> {
    seq![
        ("Siemens EDA"@, 1717u16),
        ("Xilinx"@, 2100u16),
        ("Ansys"@, 1055u16),
        ("Cadence"@, 5280u16),
        ("Silvaco"@, 27000u16),
        ("Keysight"@, 27009u16),
        ("Synopsys"@, 27020u16),
    ]
}

/// A port check as plain values.
pub open spec fn check_view(c: PortCheck) -> (Seq<char>, u16, Option<bool>) {
    (c.tool_name@, c.port, c.is_reachable)
}

fn port_check(name: &str, port: u16) -> (c: PortCheck)
    ensures
        c.tool_name@ == name@,
        c.port == port,
        c.is_reachable is None,
{
    PortCheck { tool_name: String::from_str(name), port, is_reachable: None }
}

impl NetworkState {
    /// The port checks as plain values.
    pub open spec fn checks(&self) -> Seq<(Seq<char>, u16, Option<bool>)> {
        self.port_checks@.map_values(|c: PortCheck| check_view(c))
    }

    /// Nothing known yet, every license port unprobed, checks running.
    pub fn new() -> (s: Self)
        ensures
            s.is_checking,
            s.whitelisted_ip is None,
            s.private_ip is None,
            s.gateway_ip is None,
            s.dns_c2s_up is None,
            s.direct_ip_up is None,
            s.checks().len() == license_ports().len(),
            forall|i: int|
                0 <= i < s.checks().len() ==> #[trigger] s.checks()[i] == (
                    license_ports()[i].0,
                    license_ports()[i].1,
                    None::<bool>,
                ),
    {
        let mut checks: Vec<PortCheck> = Vec::new();
        checks.push(port_check("Siemens EDA", 1717));
        checks.push(port_check("Xilinx", 2100));
        checks.push(port_check("Ansys", 1055));
        checks.push(port_check("Cadence", 5280));
        checks.push(port_check("Silvaco", 27000));
        checks.push(port_check("Keysight", 27009));
        checks.push(port_check("Synopsys", 27020));
        let s = NetworkState {
            is_checking: true,
            whitelisted_ip: None,
            private_ip: None,
            gateway_ip: None,
            dns_c2s_up: None,
            direct_ip_up: None,
            port_checks: checks,
        };
        assert forall|i: int| 0 <= i < s.checks().len() implies #[trigger] s.checks()[i] == (
            license_ports()[i].0,
            license_ports()[i].1,
            None::<bool>,
        ) by {
            assert(s.checks()[i] == check_view(s.port_checks@[i]));
        }
        s
    }

    /// Records the local addresses.
    pub fn set_local_addresses(&mut self, private_ip: Option<String>, gateway_ip: Option<String>)
        ensures
            final(self).private_ip == private_ip,
            final(self).gateway_ip == gateway_ip,
            final(self).is_checking == old(self).is_checking,
            final(self).whitelisted_ip == old(self).whitelisted_ip,
            final(self).dns_c2s_up == old(self).dns_c2s_up,
            final(self).direct_ip_up == old(self).direct_ip_up,
            final(self).port_checks == old(self).port_checks,
    {
        self.private_ip = private_ip;
        self.gateway_ip = gateway_ip;
    }

    /// Records whether the license server answered by name and by address.
    pub fn set_server_reachability(&mut self, dns_up: bool, direct_up: bool)
        ensures
            final(self).dns_c2s_up == Some(dns_up),
            final(self).direct_ip_up == Some(direct_up),
            final(self).is_checking == old(self).is_checking,
            final(self).whitelisted_ip == old(self).whitelisted_ip,
            final(self).private_ip == old(self).private_ip,
            final(self).gateway_ip == old(self).gateway_ip,
            final(self).port_checks == old(self).port_checks,
    {
        self.dns_c2s_up = Some(dns_up);
        self.direct_ip_up = Some(direct_up);
    }

    /// Records the address the license server saw.
    pub fn set_whitelisted_ip(&mut self, ip: Option<String>)
        ensures
            final(self).whitelisted_ip == ip,
            final(self).is_checking == old(self).is_checking,
            final(self).private_ip == old(self).private_ip,
            final(self).gateway_ip == old(self).gateway_ip,
            final(self).dns_c2s_up == old(self).dns_c2s_up,
            final(self).direct_ip_up == old(self).direct_ip_up,
            final(self).port_checks == old(self).port_checks,
    {
        self.whitelisted_ip = ip;
    }

    /// Records the outcome of probing the `i`-th port; the other checks
    /// stay as they are.
    pub fn set_port_result(&mut self, i: usize, reachable: bool)
        requires
            i < old(self).port_checks@.len(),
        ensures
            final(self).checks() == old(self).checks().update(
                i as int,
                (old(self).checks()[i as int].0, old(self).checks()[i as int].1, Some(reachable)),
            ),
            final(self).is_checking == old(self).is_checking,
            final(self).whitelisted_ip == old(self).whitelisted_ip,
            final(self).private_ip == old(self).private_ip,
            final(self).gateway_ip == old(self).gateway_ip,
            final(self).dns_c2s_up == old(self).dns_c2s_up,
            final(self).direct_ip_up == old(self).direct_ip_up,
    {
        let name = self.port_checks[i].tool_name.clone();
        let port = self.port_checks[i].port;
        let ghost before = self.checks();
        self.port_checks.set(i, PortCheck { tool_name: name, port, is_reachable: Some(reachable) });
        assert(self.checks() =~= before.update(
            i as int,
            (before[i as int].0, before[i as int].1, Some(reachable)),
        ));
    }

    /// Marks the diagnostics finished.
    pub fn finish(&mut self)
        ensures
            !final(self).is_checking,
            final(self).whitelisted_ip == old(self).whitelisted_ip,
            final(self).private_ip == old(self).private_ip,
            final(self).gateway_ip == old(self).gateway_ip,
            final(self).dns_c2s_up == old(self).dns_c2s_up,
            final(self).direct_ip_up == old(self).direct_ip_up,
            final(self).port_checks == old(self).port_checks,
    {
        self.is_checking = false;
    }
}

/// The trimmed output of a command, if it is not blank.
pub open spec fn nonblank(output: Seq<char>) -> Option<Seq<char>> {
    if trim(output).len() > 0 {
        Some(trim(output))
    } else {
        None
    }
}

/// The trimmed output of a command, if it is not blank.
pub fn nonblank_output(output: &str) -> (r: Option<String>)
    ensures
        match r {
            Some(s) => nonblank(output@) == Some(s@),
            None => nonblank(output@) is None,
        },
{
    let t = trim_vec(&chars_of(output));
    if t.len() > 0 {
        Some(string_of(&t))
    } else {
        None
    }
}

/// The words of `s` as the scan stands after reading it: the finished
/// words and the word being read.
pub open spec fn words_scan(s: Seq<char>) -> (Seq<Seq<char>>, Seq<char>)
    decreases s.len(),
{
    if s.len() == 0 {
        (Seq::empty(), Seq::empty())
    } else {
        let (done, cur) = words_scan(s.drop_last());
        if is_ws(s.last()) {
            if cur.len() > 0 {
                (done.push(cur), Seq::empty())
            } else {
                (done, Seq::empty())
            }
        } else {
            (done, cur.push(s.last()))
        }
    }
}

/// The maximal runs of non-whitespace in `s`, as `str::split_whitespace`
/// gives them.
pub open spec fn words(s: Seq<char>) -> Seq<Seq<char>> {
    let (done, cur) = words_scan(s);
    if cur.len() > 0 {
        done.push(cur)
    } else {
        done
    }
}

proof fn lemma_words_scan_len(s: Seq<char>)
    ensures
        words_scan(s).0.len() + (if words_scan(s).1.len() > 0 {
            1int
        } else {
            0int
        }) <= s.len(),
    decreases s.len(),
{
    if s.len() > 0 {
        lemma_words_scan_len(s.drop_last());
    }
}

/// The `k`-th word of `v`, if there is one.
pub fn nth_word(v: &[char], k: usize) -> (r: Option<Vec<char>>)
    ensures
        match r {
            Some(w) => k < words(v@).len() && w@ == words(v@)[k as int],
            None => k >= words(v@).len(),
        },
{
    let n = v.len();
    let mut count: usize = 0;
    let mut cur: Vec<char> = Vec::new();
    let mut found: Option<Vec<char>> = None;
    assert(v@.take(0) =~= Seq::<char>::empty());
    for i in 0..n
        invariant
            n == v@.len(),
            count <= i,
            count == words_scan(v@.take(i as int)).0.len(),
            cur@ == words_scan(v@.take(i as int)).1,
            match found {
                Some(w) => k < count && w@ == words_scan(v@.take(i as int)).0[k as int],
                None => k >= count,
            },
    {
        let ghost prev = words_scan(v@.take(i as int));
        assert(v@.take(i + 1).drop_last() =~= v@.take(i as int));
        assert(v@.take(i + 1).last() == v@[i as int]);
        proof {
            lemma_words_scan_len(v@.take(i as int));
        }
        if is_whitespace(v[i]) {
            if cur.len() > 0 {
                let w = cur;
                cur = Vec::new();
                if count == k {
                    found = Some(w);
                }
                count = count + 1;
                assert(cur@ =~= Seq::<char>::empty());
            } else {
                assert(cur@ =~= Seq::<char>::empty());
            }
        } else {
            cur.push(v[i]);
        }
    }
    assert(v@.take(n as int) =~= v@);
    match found {
        Some(w) => Some(w),
        None => {
            if cur.len() > 0 && count == k {
                Some(cur)
            } else {
                None
            }
        },
    }
}

/// The address that the license server's welcome page reports: when the
/// page congratulates, the third word from the first `Your IP:` on.
pub open spec fn whitelisted_ip(html: Seq<char>) -> Option<Seq<char>> {
    if contains_seq(html, "Congratulations"@) {
        let i = find_seq(html, "Your IP:"@);
        if i < html.len() {
            let w = words(html.skip(i));
            if w.len() > 2 {
                Some(w[2])
            } else {
                None
            }
        } else {
            None
        }
    } else {
        None
    }
}

/// Reads the address that the license server's welcome page reports.
pub fn parse_whitelisted_ip(html: &str) -> (r: Option<String>)
    ensures
        match r {
            Some(s) => whitelisted_ip(html@) == Some(s@),
            None => whitelisted_ip(html@) is None,
        },
{
    let v = chars_of(html);
    if !contains_chars(&v, &chars_of("Congratulations")) {
        return None;
    }
    let marker = chars_of("Your IP:");
    proof {
        reveal_strlit("Your IP:");
    }
    let i = find_chars(&v, &marker);
    if i >= v.len() {
        return None;
    }
    let rest = slice_vec(&v, i, v.len());
    assert(rest@ =~= v@.skip(i as int));
    match nth_word(&rest, 2) {
        Some(w) => Some(string_of(&w)),
        None => None,
    }
}

/// Whether the first answer of the license server calls for asking it again
/// by address: it failed, or it does not congratulate.
pub fn needs_direct_retry(first_reply: Option<&str>) -> (b: bool)
    ensures
        b == match first_reply {
            Some(page) => !contains_seq(page@, "Congratulations"@),
            None => true,
        },
{
    match first_reply {
        Some(page) => !contains_chars(&chars_of(page), &chars_of("Congratulations")),
        None => true,
    }
}

/// `host:port`.
pub fn port_address(host: &str, port: u16) -> (r: String)
    ensures
        r@ == host@ + ":"@ + decimal(port as nat),
{
    let mut prefix = String::from_str(host);
    prefix.append(":");
    with_decimal(prefix.as_str(), port as u64)
}

/// Each vendor's license check probes that vendor's documented license
/// port: Siemens EDA 1717, Xilinx 2100, Ansys 1055, Cadence 5280, Silvaco
/// 27000, Keysight 27009 and Synopsys 27020; and every one of them is
/// probed.
pub proof fn lemma_vendor_license_ports(i: int)
    requires
        0 <= i < license_ports().len(),
    ensures
        license_ports()[i].0 == "Siemens EDA"@ ==> license_ports()[i].1 == 1717,
        license_ports()[i].0 == "Xilinx"@ ==> license_ports()[i].1 == 2100,
        license_ports()[i].0 == "Ansys"@ ==> license_ports()[i].1 == 1055,
        license_ports()[i].0 == "Cadence"@ ==> license_ports()[i].1 == 5280,
        license_ports()[i].0 == "Silvaco"@ ==> license_ports()[i].1 == 27000,
        license_ports()[i].0 == "Keysight"@ ==> license_ports()[i].1 == 27009,
        license_ports()[i].0 == "Synopsys"@ ==> license_ports()[i].1 == 27020,
        license_ports().map_values(|p: (Seq<char>, u16)| p.0).to_set() == set![
            "Siemens EDA"@,
            "Xilinx"@,
            "Ansys"@,
            "Cadence"@,
            "Silvaco"@,
            "Keysight"@,
            "Synopsys"@,
        ],
{
    reveal_strlit("Siemens EDA");
    reveal_strlit("Xilinx");
    reveal_strlit("Ansys");
    reveal_strlit("Cadence");
    reveal_strlit("Silvaco");
    reveal_strlit("Keysight");
    reveal_strlit("Synopsys");
    let names = license_ports().map_values(|p: (Seq<char>, u16)| p.0);
    assert(names =~= seq!["Siemens EDA"@, "Xilinx"@, "Ansys"@, "Cadence"@, "Silvaco"@, "Keysight"@, "Synopsys"@]);
    assert(names.to_set() =~= set!["Siemens EDA"@, "Xilinx"@, "Ansys"@, "Cadence"@, "Silvaco"@, "Keysight"@, "Synopsys"@]) by {
        assert forall|x: Seq<char>| names.to_set().contains(x) <==> set!["Siemens EDA"@, "Xilinx"@, "Ansys"@, "Cadence"@, "Silvaco"@, "Keysight"@, "Synopsys"@].contains(x) by {
            if names.contains(x) {
                let j = choose|j: int| 0 <= j < names.len() && names[j] == x;
            }
            if x == "Siemens EDA"@ { assert(names[0] == x); }
            if x == "Xilinx"@ { assert(names[1] == x); }
            if x == "Ansys"@ { assert(names[2] == x); }
            if x == "Cadence"@ { assert(names[3] == x); }
            if x == "Silvaco"@ { assert(names[4] == x); }
            if x == "Keysight"@ { assert(names[5] == x); }
            if x == "Synopsys"@ { assert(names[6] == x); }
        }
    }
    let a = "Siemens EDA"@;
    let b = "Xilinx"@;
    let c = "Ansys"@;
    let d = "Cadence"@;
    let e = "Silvaco"@;
    let f = "Keysight"@;
    let g = "Synopsys"@;
    assert(a.len() == 11 && b.len() == 6 && c.len() == 5 && d.len() == 7 && e.len() == 7);
    assert(f.len() == 8 && g.len() == 8);
    assert(d[0] == 'C' && e[0] == 'S' && f[0] == 'K' && g[0] == 'S' && f[0] != g[0]);
    assert(a != b && a != c && a != d && a != e && a != f && a != g);
    assert(b != c && b != d && b != e && b != f && b != g);
    assert(c != d && c != e && c != f && c != g);
    assert(d != e && d != f && d != g);
    assert(e != f && e != g);
    assert(f != g);
}

} // verus!
