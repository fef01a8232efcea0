use cpp_auto_format::GlobRuleSet;

fn rules(accepts: &[&str], excludes: &[&str]) -> GlobRuleSet {
    let accepts: Vec<String> = accepts.iter().map(|s| s.to_string()).collect();
    let excludes: Vec<String> = excludes.iter().map(|s| s.to_string()).collect();
    GlobRuleSet::compile(accepts, excludes).expect("patterns must compile")
}

#[test]
fn exclude_wins_over_matching_accept() {
    let r = rules(&["**/*.cpp"], &["vendor/**"]);
    assert!(!r.is_selected("vendor/foo.cpp"));
    assert!(r.is_selected("src/foo.cpp"));
}

#[test]
fn exclude_wins_even_with_many_matching_accepts() {
    let r = rules(&["**/*.cpp", "vendor/*.cpp", "vendor/**"], &["vendor/**", "other/**"]);
    assert!(!r.is_selected("vendor/foo.cpp"));
}

#[test]
fn no_accept_means_not_selected() {
    let r = rules(&["**/*.cpp"], &[]);
    assert!(!r.is_selected("src/foo.c"));
    assert!(!r.is_selected("README.md"));
}

#[test]
fn default_style_extension_set() {
    let r = rules(&["**/*.c", "**/*.h", "**/*.cpp", "**/*.hpp"], &[]);
    assert!(r.is_selected("deep/nested/dir/file.hpp"));
    assert!(r.is_selected("file.c"));
    assert!(!r.is_selected("file.rs"));
}

#[test]
fn select_files_keeps_order_and_filters() {
    let r = rules(&["**/*.cpp"], &["vendor/**"]);
    let files = vec![
        "src/a.cpp".to_string(),
        "vendor/b.cpp".to_string(),
        "src/c.cpp".to_string(),
        "notes.txt".to_string(),
    ];
    let selected = r.select_files(&files);
    assert_eq!(selected, vec!["src/a.cpp".to_string(), "src/c.cpp".to_string()]);
}

#[test]
fn bad_pattern_is_reported_at_compile_time() {
    let accepts = vec!["[".to_string()];
    let r = GlobRuleSet::compile(accepts, Vec::new());
    assert!(r.is_err());
    assert_eq!(r.err().unwrap(), "[".to_string());
}

#[test]
fn character_classes_match() {
    let r = rules(&["src/[ab].cpp"], &[]);
    assert!(r.is_selected("src/a.cpp"));
    assert!(r.is_selected("src/b.cpp"));
    assert!(!r.is_selected("src/c.cpp"));
}
