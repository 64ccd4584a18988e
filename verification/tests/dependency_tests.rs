use c2s_setup::dependency::{
    extract_base_package_name, install_args, package_from_provides_line, search_patterns,
    DependencyError, DependencyResolution, DependencyStep,
};

#[test]
fn base_package_names() {
    assert_eq!(extract_base_package_name("qt5-qtsvg-5.15.2-4.el8.x86_64"), "qt5-qtsvg");
    assert_eq!(extract_base_package_name("libpng12-1.2.57-10.el8.x86_64"), "libpng12");
    assert_eq!(extract_base_package_name("  tcsh-6.20.00-15.el8.x86_64 "), "tcsh");
    // Fewer than three dash-separated fields: the whole spec, architecture included.
    assert_eq!(extract_base_package_name("foo-1.x86_64"), "foo-1.x86_64");
    assert_eq!(extract_base_package_name("plain"), "plain");
    assert_eq!(extract_base_package_name("   "), "");
    // No dot: nothing is cut as architecture.
    assert_eq!(extract_base_package_name("a-b-c-d"), "a-b");
}

#[test]
fn provides_lines() {
    let p = |l: &str| package_from_provides_line(l);
    assert_eq!(p("qt5-qtsvg-5.15.2-4.el8.x86_64 : Qt5 - Support for SVG format"), Some("qt5-qtsvg".to_string()));
    assert_eq!(p("Repo        : appstream"), None);
    assert_eq!(p("Matched from:"), None);
    assert_eq!(p("Filename    : /usr/lib64/libpng12.so.0"), None);
    assert_eq!(p("  indented-1-2.x86_64 : x"), None);
    assert_eq!(p("\tindented-1-2.x86_64 : x"), None);
    assert_eq!(p("two words-1-2 : x"), None);
    assert_eq!(p("/usr/lib : x"), None);
    assert_eq!(p("no separator here"), None);
    assert_eq!(p("Name-1-2.x86_64 : ignored base"), None);
}

#[test]
fn patterns_by_query_kind() {
    assert_eq!(search_patterns("/usr/lib64/libXp.so.6"), vec!["/usr/lib64/libXp.so.6"]);
    assert_eq!(search_patterns("libpng12.so.0"), vec!["*/libpng12.so.0", "*libpng12.so.0*"]);
    assert_eq!(search_patterns("tcsh"), vec!["*/tcsh", "*tcsh*", "tcsh"]);
}

#[test]
fn empty_query_is_refused() {
    assert_eq!(DependencyResolution::start("   ").err(), Some(DependencyError::EmptyQuery));
}

#[test]
fn resolution_stops_at_first_pattern_with_results() {
    let mut d = DependencyResolution::start(" libpng12.so.0 ").unwrap();
    assert_eq!(d.next_step(), DependencyStep::Provides("*/libpng12.so.0".to_string()));
    d.record_line("libpng12-1.2.57-10.el8.x86_64 : Old version of Libpng");
    d.record_line("Repo        : appstream");
    d.record_line("libpng12-1.2.57-10.el8.i686 : Old version of Libpng");
    assert_eq!(d.next_step(), DependencyStep::Install(vec!["libpng12".to_string()]));
}

#[test]
fn resolution_falls_back_to_query() {
    let mut d = DependencyResolution::start("tcsh").unwrap();
    assert_eq!(d.next_step(), DependencyStep::Provides("*/tcsh".to_string()));
    assert_eq!(d.next_step(), DependencyStep::Provides("*tcsh*".to_string()));
    assert_eq!(d.next_step(), DependencyStep::Provides("tcsh".to_string()));
    assert_eq!(d.next_step(), DependencyStep::InstallQuery("tcsh".to_string()));
}

#[test]
fn install_arguments() {
    let pkgs = vec!["a".to_string(), "b".to_string()];
    assert_eq!(install_args(&pkgs), vec!["install", "-y", "a", "b"]);
}

#[test]
fn packages_are_listed_once_in_first_seen_order() {
    let mut d = DependencyResolution::start("libX").unwrap();
    let _ = d.next_step();
    d.record_line("b-pkg-1.0-1.el8.x86_64 : one");
    d.record_line("a-pkg-2.0-1.el8.x86_64 : two");
    d.record_line("b-pkg-1.0-2.el8.i686 : three");
    assert_eq!(d.next_step(), DependencyStep::Install(vec!["b-pkg".to_string(), "a-pkg".to_string()]));
}
