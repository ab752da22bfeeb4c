[package]
name = "tauri_core"
version = "0.1.0"
edition = "2021"
publish = false

[dependencies]
anyhow = "1"
base64 = "0.13"
blake3 = { version = "0.3", features = ["rayon"] }
clap = { version = "3", features = ["cargo"] }
http = "0.2"
ico = "0.1"
infer = "0.4"
kuchiki = "0.8"
minisign-verify = "0.1"
notify = "4"
once_cell = "1"
proc-macro2 = "1"
quote = "1"
regex = "1"
semver = "1"
serde = { version = "1", features = ["derive"] }
serde_json = "1"
shared_child = "0.3"
tempfile = "3"
thiserror = "1"
uuid = { version = "0.8", features = ["v4"] }
walkdir = "2"
wry = "0.10"
zstd = "0.9"
