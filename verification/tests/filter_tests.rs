use repo_insight::filter::SmartFilter;
use repo_insight::classify::{is_binary_file, is_text_file, is_source_code, is_config_file};

#[test]
fn test_smart_filter() {
    let filter = SmartFilter::new().min_size(100).max_size(10000);

    // too small
    assert!(filter.should_filter("test.txt", 50));

    // too large
    assert!(filter.should_filter("test.txt", 20000));

    // in range
    assert!(!filter.should_filter("test.txt", 500));
}

#[test]
fn test_ignore_patterns() {
    let filter = SmartFilter::new();

    assert!(filter.should_filter("node_modules/test.js", 100));
    assert!(filter.should_filter(".git/config", 100));
    assert!(filter.should_filter("build/output.js", 100));

    assert!(!filter.should_filter("src/main.rs", 100));
}

#[test]
fn test_file_type_checks() {
    assert!(is_binary_file("exe"));
    assert!(is_binary_file("dll"));
    assert!(!is_binary_file("txt"));

    assert!(is_text_file("txt"));
    assert!(is_text_file("md"));
    assert!(!is_text_file("exe"));

    assert!(is_source_code("rs"));
    assert!(is_source_code("js"));
    assert!(!is_source_code("txt"));

    assert!(is_config_file(".gitignore"));
    assert!(is_config_file("package.json"));
    assert!(!is_config_file("main.rs"));
}

#[test]
fn test_extension_allow_list() {
    let filter = SmartFilter::new().extensions(vec!["rs".to_string()]);

    assert!(!filter.should_filter("src/main.rs", 100));
    assert!(filter.should_filter("src/main.py", 100));
    // no extension at all is excluded when an allow-list is set
    assert!(filter.should_filter("Makefile", 100));
}

#[test]
fn test_add_pattern() {
    let filter = SmartFilter::new().add_pattern("secret".to_string());

    assert!(filter.should_filter("x/secret/y.txt", 100));
    assert!(!filter.should_filter("x/open/y.txt", 100));
}

#[test]
fn test_config_file_suffixes() {
    assert!(is_config_file("jest.config.js"));
    assert!(is_config_file("vitest.config.ts"));
    assert!(is_config_file("nginx.conf"));
    assert!(is_config_file(".env"));
    assert!(!is_config_file("config.rs"));
}
