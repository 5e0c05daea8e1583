use repo_insight::model::ScanConfig;
use repo_insight::scanner::{scan_directory_sync, scan_directory_parallel};

#[test]
fn test_scan_current_directory() {
    let config = ScanConfig {
        path: ".".to_string(),
        max_depth: Some(2),
        ..Default::default()
    };

    let result = scan_directory_sync(config);
    assert!(result.is_ok());

    let scan = result.unwrap();
    assert!(scan.file_count > 0);
    println!("Scanned {} files in {}ms", scan.file_count, scan.duration_ms);
}

#[test]
fn test_parallel_vs_sync() {
    let config = ScanConfig {
        path: ".".to_string(),
        max_depth: Some(3),
        ..Default::default()
    };

    let sync_result = scan_directory_sync(config.clone()).unwrap();
    println!("Sync scan: {}ms", sync_result.duration_ms);

    let parallel_result = scan_directory_parallel(config).unwrap();
    println!("Parallel scan: {}ms", parallel_result.duration_ms);

    println!(
        "Speedup: {:.2}x",
        sync_result.duration_ms as f64 / parallel_result.duration_ms as f64
    );
}

#[test]
fn test_default_config_carries_the_full_ignore_set() {
    let config = ScanConfig::default();
    assert_eq!(config.path, ".");
    assert_eq!(config.max_depth, None);
    assert!(config.parallel);
    assert!(!config.follow_links);
    assert_eq!(config.ignore_patterns.len(), 22);
    assert_eq!(config.ignore_patterns[0], "node_modules");
    assert!(config.ignore_patterns.contains(&"bower_components".to_string()));
    assert!(config.ignore_patterns.contains(&".DS_Store".to_string()));
    assert!(config.ignore_patterns.contains(&"desktop.ini".to_string()));
}

#[test]
fn test_max_depth_zero_yields_only_the_root() {
    let config = ScanConfig {
        path: "./src".to_string(),
        max_depth: Some(0),
        ignore_patterns: Vec::new(),
        ..Default::default()
    };

    let scan = scan_directory_sync(config).unwrap();
    assert_eq!(scan.files.len(), 1);
    assert_eq!(scan.dir_count, 1);
    assert_eq!(scan.file_count, 0);
}

#[test]
fn test_max_depth_bounds_the_paths() {
    let config = ScanConfig {
        path: ".".to_string(),
        max_depth: Some(1),
        ignore_patterns: Vec::new(),
        ..Default::default()
    };

    let scan = scan_directory_sync(config).unwrap();
    // the root "." has no separator, so one level below it has at most one
    assert!(scan.files.iter().all(|f| f.path.matches('/').count() <= 1));
}

#[test]
fn test_missing_root_is_an_error() {
    let config = ScanConfig {
        path: "/surely/not/a/real/path".to_string(),
        ..Default::default()
    };

    let result = scan_directory_sync(config.clone());
    assert_eq!(result.unwrap_err(), "Path does not exist: /surely/not/a/real/path");

    let result = scan_directory_parallel(config);
    assert_eq!(result.unwrap_err(), "Path does not exist: /surely/not/a/real/path");
}

#[test]
fn test_scan_aggregates_match_entries() {
    let config = ScanConfig {
        path: ".".to_string(),
        max_depth: Some(2),
        ..Default::default()
    };

    let scan = scan_directory_sync(config).unwrap();
    let files = scan.files.iter().filter(|f| !f.is_dir).count();
    let dirs = scan.files.iter().filter(|f| f.is_dir).count();
    let size: u64 = scan.files.iter().filter(|f| !f.is_dir).map(|f| f.size).sum();

    assert_eq!(scan.file_count, files);
    assert_eq!(scan.dir_count, dirs);
    assert_eq!(scan.file_count + scan.dir_count, scan.files.len());
    assert_eq!(scan.total_size, size);
}

#[test]
fn test_repeated_scans_agree() {
    let config = ScanConfig {
        path: "./src".to_string(),
        ..Default::default()
    };

    let first = scan_directory_sync(config.clone()).unwrap();
    let second = scan_directory_sync(config).unwrap();

    assert_eq!(first.file_count, second.file_count);
    assert_eq!(first.dir_count, second.dir_count);
    assert_eq!(first.total_size, second.total_size);
}

#[test]
fn test_modes_collect_the_same_entries() {
    let config = ScanConfig {
        path: "./src".to_string(),
        ..Default::default()
    };

    let sync_scan = scan_directory_sync(config.clone()).unwrap();
    let parallel_scan = scan_directory_parallel(config).unwrap();

    assert_eq!(sync_scan.file_count, parallel_scan.file_count);
    assert_eq!(sync_scan.dir_count, parallel_scan.dir_count);
    assert_eq!(sync_scan.total_size, parallel_scan.total_size);

    // the parallel conversion keeps the traversal order, so even the
    // collected paths line up
    let sync_paths: Vec<&str> = sync_scan.files.iter().map(|f| f.path.as_str()).collect();
    let parallel_paths: Vec<&str> = parallel_scan.files.iter().map(|f| f.path.as_str()).collect();
    assert_eq!(sync_paths, parallel_paths);
}

#[test]
fn test_ignore_patterns_prune_entries() {
    let config = ScanConfig {
        path: "./src".to_string(),
        ignore_patterns: vec!["scanner".to_string()],
        ..Default::default()
    };

    let scan = scan_directory_sync(config).unwrap();
    assert!(scan.files.iter().all(|f| !f.path.contains("scanner")));
    assert!(scan.files.iter().any(|f| f.path.contains("lib.rs")));
}

#[test]
fn test_entry_extensions_come_from_names() {
    let config = ScanConfig {
        path: "./src".to_string(),
        ..Default::default()
    };

    let scan = scan_directory_sync(config).unwrap();
    let lib = scan.files.iter().find(|f| f.name == "lib.rs").unwrap();
    assert_eq!(lib.extension, "rs");
    assert!(!lib.is_dir);
}
