[package]
name = "voice_relay"
version = "0.1.0"
edition = "2021"
publish = false

[dependencies]
shell-words = "*"
tokio = { version = "*", features = ["process", "sync", "time", "net", "io-util", "macros", "rt-multi-thread"] }
log = "*"
pretty_env_logger = "*"
dotenvy = "*"
envy = "*"
serde = { version = "*", features = ["derive"] }
thiserror = "*"
reqwest = { version = "*", default-features = false }
