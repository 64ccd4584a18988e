use c2s_setup::tools::{
    cadence_archives, cadence_tool_name, gtar_target_name, is_gtar_archive, next_wrapper_dir,
    names_in_order, silvaco_phase_key, sort_names,
};

#[test]
fn cadence_names() {
    assert_eq!(cadence_tool_name("IC618.tar.gz"), Some("IC618".to_string()));
    assert_eq!(cadence_tool_name("JASPER.tar.gz.gtar"), None);
    assert_eq!(cadence_tool_name(".tar.gz"), Some("".to_string()));
}

#[test]
fn archives_sorted() {
    let files = vec![
        "SPECTRE.tar.gz".to_string(),
        "tools.sh".to_string(),
        "ASSURA41.tar.gz".to_string(),
        "GENUS211.tar.gz".to_string(),
        "JASPER.tar.gz.gtar".to_string(),
    ];
    assert_eq!(cadence_archives(&files), vec!["ASSURA41.tar.gz", "GENUS211.tar.gz", "SPECTRE.tar.gz"]);
}

#[test]
fn sorting_matches_std() {
    let names: Vec<String> = ["b", "a", "ab", "", "B", "é", "a"].iter().map(|s| s.to_string()).collect();
    let mut expected = names.clone();
    expected.sort();
    assert_eq!(sort_names(names), expected);
    assert!(names_in_order(&"ab".to_string(), &"b".to_string()));
    assert!(!names_in_order(&"b".to_string(), &"ab".to_string()));
}

#[test]
fn gtar_archives() {
    assert!(is_gtar_archive("JASPER.tar.gz.gtar"));
    assert!(!is_gtar_archive(".gtar"));
    assert!(!is_gtar_archive("x.gtarx"));
    assert!(!is_gtar_archive("gtar"));
    for name in ["JASPER.tar.gz.gtar", ".gtar", "a.b.gtar", "x.tar", "noext"] {
        let std_says = std::path::Path::new(name).extension().map(|e| e == "gtar").unwrap_or(false);
        assert_eq!(is_gtar_archive(name), std_says, "{}", name);
    }
    assert_eq!(gtar_target_name("JASPER.tar.gz.gtar"), Some("JASPER".to_string()));
    assert_eq!(gtar_target_name("X.tgz.gtar"), Some("X".to_string()));
    assert_eq!(gtar_target_name("plain"), None);
    assert_eq!(gtar_target_name(".gtar"), None);
    assert_eq!(gtar_target_name("A.tar.tar"), Some("A.tar".to_string()));
}

#[test]
fn phase_keys_and_wrappers() {
    assert_eq!(silvaco_phase_key(2), "SILVACO_2");
    assert_eq!(next_wrapper_dir(&vec![("/tmp/x/inner".to_string(), true)]), Some("/tmp/x/inner".to_string()));
    assert_eq!(next_wrapper_dir(&vec![("/tmp/x/file".to_string(), false)]), None);
    assert_eq!(next_wrapper_dir(&vec![]), None);
}
