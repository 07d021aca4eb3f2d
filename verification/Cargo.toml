[package]
name = "whisp_core"
version = "0.1.0"
edition = "2021"
publish = false

[dependencies]
zeroize = "1"
image = { version = "0.25", default-features = false, features = ["jpeg"] }
serde = { version = "1", features = ["derive"] }
serde_json = "1"
toml = "0.8"
tokio = { version = "1", features = ["sync", "time", "process", "fs", "macros", "rt-multi-thread"] }
reqwest = { version = "0.12", default-features = false, features = ["json", "stream", "rustls-tls"] }
futures = "0.3"
async-trait = "0.1"
thiserror = "1"
log = "0.4"
env_logger = "0.11"
dirs = "5"
flate2 = "1"
tar = "0.4"
zstd = "0.13"
zip = { version = "2", default-features = false, features = ["deflate"] }
