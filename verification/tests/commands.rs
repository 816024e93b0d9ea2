use drillsargeant::commands::analyze_directory;
use drillsargeant::commands::get_system_info;
use drillsargeant::commands::watch_directory;
use drillsargeant::model::count_severity;

#[test]
fn analyze_directory_succeeds_on_any_path() {
    assert!(analyze_directory(String::new()).is_ok());
    assert!(analyze_directory("/no/such/path".to_string()).is_ok());
    assert!(analyze_directory("Cargo.toml".to_string()).is_ok());
    assert!(analyze_directory("\u{0}weird\npath".to_string()).is_ok());
}

#[test]
fn analyze_directory_returns_three_fixed_issues() {
    let r = analyze_directory("anything".to_string()).unwrap();
    assert_eq!(r.issues.len(), 3);
    assert_eq!(r.issues[0].id, "security_1");
    assert_eq!(r.issues[0].severity, "high");
    assert_eq!(r.issues[0].issue_type, "security");
    assert_eq!(r.issues[0].title, "Potential XSS Vulnerability");
    assert_eq!(r.issues[0].file_path, "src/components/App.tsx");
    assert_eq!(r.issues[0].line_number, 42);
    assert_eq!(r.issues[0].code_snippet, "element.innerHTML = userInput;");
    assert_eq!(r.issues[1].id, "performance_1");
    assert_eq!(r.issues[1].severity, "medium");
    assert_eq!(r.issues[1].issue_type, "performance");
    assert_eq!(r.issues[1].file_path, "src/styles/main.css");
    assert_eq!(r.issues[1].line_number, 15);
    assert_eq!(r.issues[2].id, "quality_1");
    assert_eq!(r.issues[2].severity, "low");
    assert_eq!(r.issues[2].issue_type, "quality");
    assert_eq!(r.issues[2].file_path, "src/utils/helpers.js");
    assert_eq!(r.issues[2].line_number, 8);
    assert_eq!(
        r.issues[2].recommendation,
        "Remove unused variables to improve code clarity"
    );
}

#[test]
fn analyze_directory_summary_is_one_per_severity() {
    for path in ["", "/tmp", "not a dir at all", "src/lib.rs"] {
        let r = analyze_directory(path.to_string()).unwrap();
        assert_eq!(r.summary.total_issues, 3);
        assert_eq!(r.summary.high_severity, 1);
        assert_eq!(r.summary.medium_severity, 1);
        assert_eq!(r.summary.low_severity, 1);
        assert_eq!(
            r.summary.total_issues,
            r.summary.high_severity + r.summary.medium_severity + r.summary.low_severity
        );
    }
}

#[test]
fn analyze_directory_file_counts_fixed() {
    let a = analyze_directory(String::new()).unwrap();
    let b = analyze_directory("some/other/input".to_string()).unwrap();
    assert_eq!(a.total_files, 127);
    assert_eq!(a.analyzed_files, 89);
    assert_eq!(b.total_files, 127);
    assert_eq!(b.analyzed_files, 89);
}

#[test]
fn count_severity_matches_exact_labels_only() {
    let r = analyze_directory(String::new()).unwrap();
    assert_eq!(count_severity(&r.issues, &"high".to_string()), 1);
    assert_eq!(count_severity(&r.issues, &"medium".to_string()), 1);
    assert_eq!(count_severity(&r.issues, &"low".to_string()), 1);
    assert_eq!(count_severity(&r.issues, &"critical".to_string()), 0);
    assert_eq!(count_severity(&r.issues, &"HIGH".to_string()), 0);
    assert_eq!(count_severity(&r.issues, &String::new()), 0);
}

#[test]
fn get_system_info_exact_text() {
    let s = get_system_info("linux", "x86_64").unwrap();
    assert_eq!(
        s,
        "DrillSargeant Desktop v1.0\nPlatform: linux\nArchitecture: x86_64"
    );
}

#[test]
fn get_system_info_contains_banner_os_and_arch() {
    let s = get_system_info("macos", "aarch64").unwrap();
    assert!(s.contains("DrillSargeant Desktop v1.0"));
    assert!(s.contains("macos"));
    assert!(s.contains("aarch64"));
}

#[test]
fn watch_directory_acknowledges_path() {
    let s = watch_directory("X".to_string()).unwrap();
    assert!(s.contains("Started monitoring"));
    assert!(s.contains("X"));
    assert_eq!(s, "Started monitoring: X");
}

#[test]
fn watch_directory_succeeds_on_empty_and_odd_paths() {
    assert_eq!(watch_directory(String::new()).unwrap(), "Started monitoring: ");
    assert_eq!(
        watch_directory("a b\tc\n".to_string()).unwrap(),
        "Started monitoring: a b\tc\n"
    );
}
