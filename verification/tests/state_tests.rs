use c2s_setup::state::StateMap;

fn s(x: &str) -> String {
    x.to_string()
}

#[test]
fn insert_replaces_in_place_and_appends_new_keys() {
    let mut m = StateMap::new();
    m.insert(s("A"), s("1"));
    m.insert(s("B"), s("2"));
    m.insert(s("A"), s("3"));
    assert_eq!(m.len(), 2);
    assert_eq!(m.get("A"), Some(s("3")));
    assert_eq!(m.get("B"), Some(s("2")));
    assert_eq!(m.get("C"), None);
    assert_eq!(m.render(), "A=3\nB=2\n");
}

#[test]
fn load_skips_blank_comment_and_malformed_lines() {
    let mut m = StateMap::new();
    m.load("# comment\n\n  KEY = value with spaces  \r\nnoequals\n=empty key\nX=a=b\nKEY=later\n");
    assert_eq!(m.get("KEY"), Some(s("later")));
    assert_eq!(m.get(""), Some(s("empty key")));
    assert_eq!(m.get("X"), Some(s("a=b")));
    assert_eq!(m.get("noequals"), None);
    assert_eq!(m.len(), 3);
}

#[test]
fn load_without_trailing_newline() {
    let mut m = StateMap::new();
    m.load("A=1\nB=2");
    assert_eq!(m.get("B"), Some(s("2")));
}

#[test]
fn rendered_state_reads_back() {
    let mut m = StateMap::new();
    m.insert(s("MACHINE_NUMBER"), s("7"));
    m.insert(s("SCRIPT_DIR"), s("/home/lab/setup"));
    m.insert(s("XILINX"), s("DONE"));
    m.insert(s("XILINX_TIME"), s("2025-01-02 03:04:05"));
    let text = m.render();
    let mut back = StateMap::new();
    back.load(&text);
    assert_eq!(back.render(), text);
    for k in ["MACHINE_NUMBER", "SCRIPT_DIR", "XILINX", "XILINX_TIME"] {
        assert_eq!(back.get(k), m.get(k));
    }
}

#[test]
fn unstorable_value_does_not_read_back() {
    let mut m = StateMap::new();
    m.insert(s("K"), s(" padded "));
    let mut back = StateMap::new();
    back.load(&m.render());
    assert_eq!(back.get("K"), Some(s("padded")));
}
