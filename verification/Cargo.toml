[package]
name = "project_lint"
version = "0.1.0"
edition = "2021"
publish = false

[dependencies]
serde_json = "*"
regex = "*"
git2 = { version = "*", default-features = false }
serde = { version = "*", features = ["derive"] }
toml = "*"
chrono = "*"
dirs = "*"
glob = "*"
walkdir = "*"
clap = { version = "*", features = ["derive"] }
anyhow = "*"

[dev-dependencies]
tempfile = "*"
