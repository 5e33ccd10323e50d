[package]
name = "typst_oxide"
version = "0.1.0"
edition = "2021"
publish = false

[dependencies]
anyhow = "1"
lsp-server = "*"
lsp-types = "*"
regex = "1"
rusqlite = { version = "*", features = ["bundled"] }
rustc-hash = "*"
serde = { version = "1", features = ["derive"] }
serde_json = "1"
thiserror = "*"
tokio = { version = "1", features = ["fs", "process", "rt", "macros"] }
ts-rs = "*"

[dev-dependencies]
tempfile = "3"
