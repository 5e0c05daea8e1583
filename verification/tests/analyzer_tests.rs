use repo_insight::analyzer::{
    analyze_project, detect_project_type, analyze_languages, find_dependency_files,
    find_config_files, estimate_lines_of_code,
};
use repo_insight::model::FileInfo;

fn file(path: &str, name: &str, size: u64, extension: &str) -> FileInfo {
    FileInfo {
        path: path.to_string(),
        name: name.to_string(),
        size,
        is_dir: false,
        extension: extension.to_string(),
        modified_time: 0,
        created_time: 0,
    }
}

#[test]
fn test_detect_project_type() {
    let files = vec![file("package.json", "package.json", 1024, "json")];

    let project_type = detect_project_type(&files);
    assert_eq!(project_type, "Node.js");
}

#[test]
fn test_analyze_languages() {
    let files = vec![
        file("main.rs", "main.rs", 1000, "rs"),
        file("lib.rs", "lib.rs", 2000, "rs"),
    ];

    let stats = analyze_languages(&files);
    assert_eq!(stats.len(), 1);
    assert_eq!(stats[0].language, "Rust");
    assert_eq!(stats[0].file_count, 2);
}

#[test]
fn test_single_language_stat_is_everything() {
    let files = vec![
        file("main.rs", "main.rs", 1000, "rs"),
        file("lib.rs", "lib.rs", 2000, "rs"),
    ];

    let stats = analyze_languages(&files);
    assert_eq!(stats.len(), 1);
    assert_eq!(stats[0].language, "Rust");
    assert_eq!(stats[0].file_count, 2);
    assert_eq!(stats[0].total_size, 3000);
    // 100.00 percent, in hundredths of a percent
    assert_eq!(stats[0].percentage_hundredths, 10000);
}

#[test]
fn test_language_split_and_order() {
    let files = vec![
        file("a.py", "a.py", 1000, "py"),
        file("b.rs", "b.rs", 3000, "rs"),
    ];

    let stats = analyze_languages(&files);
    assert_eq!(stats.len(), 2);
    // descending by total size
    assert_eq!(stats[0].language, "Rust");
    assert_eq!(stats[0].total_size, 3000);
    assert_eq!(stats[0].percentage_hundredths, 7500);
    assert_eq!(stats[1].language, "Python");
    assert_eq!(stats[1].percentage_hundredths, 2500);
}

#[test]
fn test_language_tie_keeps_registry_order() {
    let files = vec![
        file("a.py", "a.py", 1000, "py"),
        file("b.rs", "b.rs", 1000, "rs"),
    ];

    let stats = analyze_languages(&files);
    assert_eq!(stats.len(), 2);
    // equal sizes: Rust precedes Python in the registry
    assert_eq!(stats[0].language, "Rust");
    assert_eq!(stats[1].language, "Python");
}

#[test]
fn test_fallback_by_extension_majority() {
    let files = vec![
        file("a.rs", "a.rs", 10, "rs"),
        file("b.rs", "b.rs", 10, "rs"),
        file("c.py", "c.py", 10, "py"),
    ];

    assert_eq!(detect_project_type(&files), "Rust");
}

#[test]
fn test_marker_beats_extensions() {
    let files = vec![
        file("a.rs", "a.rs", 10, "rs"),
        file("b.rs", "b.rs", 10, "rs"),
        file("go.mod", "go.mod", 10, "mod"),
    ];

    assert_eq!(detect_project_type(&files), "Go");
}

#[test]
fn test_find_dependency_files() {
    let files = vec![
        file("proj/Cargo.toml", "Cargo.toml", 10, "toml"),
        file("proj/src/main.rs", "main.rs", 10, "rs"),
        file("proj/yarn.lock", "yarn.lock", 10, "lock"),
    ];

    let deps = find_dependency_files(&files);
    assert_eq!(deps, vec!["proj/Cargo.toml".to_string(), "proj/yarn.lock".to_string()]);
}

#[test]
fn test_find_config_files() {
    let files = vec![
        file("proj/.gitignore", ".gitignore", 10, ""),
        file("proj/webpack.config.js", "webpack.config.js", 10, "js"),
        file("proj/main.rs", "main.rs", 10, "rs"),
        file("proj/vitest.config.ts", "vitest.config.ts", 10, "ts"),
    ];

    let configs = find_config_files(&files);
    assert_eq!(
        configs,
        vec![
            "proj/.gitignore".to_string(),
            "proj/webpack.config.js".to_string(),
            "proj/vitest.config.ts".to_string(),
        ]
    );
}

#[test]
fn test_estimate_lines() {
    // one source file of 4000 bytes at 40 bytes per line
    let files = vec![file("app.py", "app.py", 4000, "py")];
    assert_eq!(estimate_lines_of_code(&files), 100);
}

#[test]
fn test_estimate_ignores_non_source() {
    let files = vec![
        file("app.py", "app.py", 4000, "py"),
        file("data.csv", "data.csv", 4000, "csv"),
    ];
    assert_eq!(estimate_lines_of_code(&files), 100);
}

#[test]
fn test_analyze_empty() {
    let files: Vec<FileInfo> = Vec::new();
    let analysis = analyze_project(&files);

    assert_eq!(analysis.project_type, "Unknown");
    assert!(analysis.language_stats.is_empty());
    assert!(analysis.dependency_files.is_empty());
    assert!(analysis.config_files.is_empty());
    assert_eq!(analysis.estimated_lines, 0);
}

#[test]
fn test_directories_do_not_count() {
    let mut dir = file("src", "src", 4096, "");
    dir.is_dir = true;
    let files = vec![dir, file("src/a.rs", "a.rs", 400, "rs")];

    let stats = analyze_languages(&files);
    assert_eq!(stats.len(), 1);
    assert_eq!(stats[0].file_count, 1);
    assert_eq!(stats[0].total_size, 400);
    assert_eq!(estimate_lines_of_code(&files), 10);
}
