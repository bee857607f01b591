[package]
name = "codex_workflow"
version = "0.1.0"
edition = "2021"
publish = false

[dependencies]
sha2 = "=0.10.9"
semver = "=1.0.28"
serde = { version = "=1.0.229", features = ["derive"] }
serde_json = "=1.0.154"
thiserror = "=2.0.21"
url = "=2.5.8"
uuid = { version = "=1.29.0", features = ["v4", "serde"] }
libc = "=0.2.191"
reqwest = { version = "*", default-features = false, features = ["json"] }
