[package]
name = "federation_rs"
version = "0.1.0"
edition = "2021"
publish = false

[dependencies]
semver = "1"
serde = { version = "1", features = ["derive"] }
serde_json = "1"
serde_yaml = "0.9"
thiserror = "1"
anyhow = "1"
rand = "0.8"
camino = "1"
url = "2"
structopt = "0.3"
toml = "0.8"
toml_edit = "0.19"
which = "4"
log = "0.4"
ansi_term = "0.12"
lazy_static = "1"
uuid = { version = "1", features = ["v4", "serde"] }
async-channel = "1"
tokio = { version = "1", features = ["rt", "sync", "macros"] }
tracing = "0.1"
flate2 = "1"
tar = "0.4"
fs_extra = "1"
serde_with = { version = "3", default-features = false, features = ["macros"] }
