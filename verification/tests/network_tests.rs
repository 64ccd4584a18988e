use c2s_setup::network::{
    needs_direct_retry, nonblank_output, nth_word, parse_whitelisted_ip, port_address, NetworkState,
};

#[test]
fn new_state_lists_license_ports() {
    let s = NetworkState::new();
    assert!(s.is_checking);
    let ports: Vec<(String, u16)> = s.port_checks.iter().map(|c| (c.tool_name.clone(), c.port)).collect();
    assert_eq!(ports[0], ("Siemens EDA".to_string(), 1717));
    assert_eq!(ports[3], ("Cadence".to_string(), 5280));
    assert_eq!(ports[6], ("Synopsys".to_string(), 27020));
    assert_eq!(ports.len(), 7);
    assert!(s.port_checks.iter().all(|c| c.is_reachable.is_none()));
}

#[test]
fn recording_results() {
    let mut s = NetworkState::new();
    s.set_local_addresses(Some("10.0.0.5".to_string()), None);
    s.set_server_reachability(true, false);
    s.set_port_result(2, true);
    s.set_whitelisted_ip(Some("1.2.3.4".to_string()));
    s.finish();
    assert!(!s.is_checking);
    assert_eq!(s.private_ip.as_deref(), Some("10.0.0.5"));
    assert_eq!(s.dns_c2s_up, Some(true));
    assert_eq!(s.direct_ip_up, Some(false));
    assert_eq!(s.port_checks[2].is_reachable, Some(true));
    assert_eq!(s.port_checks[1].is_reachable, None);
    assert_eq!(s.port_checks[2].tool_name, "Ansys");
}

#[test]
fn whitelisted_ip_from_page() {
    let page = "<html><h1>Congratulations!</h1><p>Your IP: 203.0.113.9 is whitelisted</p></html>";
    assert_eq!(parse_whitelisted_ip(page), Some("203.0.113.9".to_string()));
    assert_eq!(parse_whitelisted_ip("Your IP: 203.0.113.9"), None);
    assert_eq!(parse_whitelisted_ip("Congratulations Your IP:"), None);
    assert_eq!(parse_whitelisted_ip("Congratulations but nothing"), None);
    assert_eq!(parse_whitelisted_ip("Congratulations\nYour   IP:\t\n 10.1.1.1\n"), None);
    assert_eq!(parse_whitelisted_ip("Congratulations\nYour IP:\t\n 10.1.1.1\n"), Some("10.1.1.1".to_string()));
}

#[test]
fn words_like_split_whitespace() {
    let text = "  a bb\t\n ccc  ";
    let v: Vec<char> = text.chars().collect();
    let std_words: Vec<&str> = text.split_whitespace().collect();
    for k in 0..5 {
        let w = nth_word(&v, k).map(|w| w.iter().collect::<String>());
        assert_eq!(w.as_deref(), std_words.get(k).copied());
    }
}

#[test]
fn retry_and_outputs() {
    assert!(needs_direct_retry(None));
    assert!(needs_direct_retry(Some("Forbidden")));
    assert!(!needs_direct_retry(Some("Congratulations")));
    assert_eq!(nonblank_output(" 192.168.1.4 \n"), Some("192.168.1.4".to_string()));
    assert_eq!(nonblank_output("\n"), None);
    assert_eq!(port_address("c2s.cdacb.in", 2100), "c2s.cdacb.in:2100");
}
