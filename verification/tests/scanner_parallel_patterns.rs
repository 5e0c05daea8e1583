use repo_insight::model::ScanConfig;
use repo_insight::scanner::scan_directory_parallel;

#[test]
fn test_parallel_applies_patterns() {
    let config = ScanConfig {
        path: "./src".to_string(),
        ignore_patterns: vec!["scanner".to_string()],
        ..Default::default()
    };

    let scan = scan_directory_parallel(config).unwrap();
    assert!(scan.files.iter().all(|f| !f.path.contains("scanner")));
    assert!(scan.files.iter().any(|f| f.path.contains("lib.rs")));
}
