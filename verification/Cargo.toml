[package]
name = "amd_freq_guard"
version = "0.1.0"
edition = "2021"
publish = false

[dependencies]
calcmhz = "0.1"
encoding_rs = "0.8"
env_logger = "0.11"
lazy_static = "1"
log = "0.4"
once_cell = "1"
reqwest = { version = "0.12", features = ["json"] }
semver = "1"
serde = { version = "1", features = ["derive"] }
serde_json = "1"
sysinfo = "0.33"
tokio = { version = "1", features = ["full"] }
uuid = { version = "1", features = ["v4"] }
