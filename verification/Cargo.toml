[package]
name = "maa_core"
version = "0.1.0"
edition = "2021"
publish = false

[dependencies]
base64 = "=0.22.1"
log = "0.4"
maa-framework = { version = "=1.27.0", features = ["dynamic"] }
regex = "=1.13.1"
semver = "=1.0.28"
serde = { version = "1", features = ["derive"] }
tauri = { version = "2", default-features = false }
