[package]
name = "repo_insight"
version = "0.1.0"
edition = "2021"
publish = false

[dependencies]
walkdir = "2"
rayon = "1"
sysinfo = "*"
num_cpus = "1"
tokio = { version = "1", features = ["rt", "time", "macros"] }
