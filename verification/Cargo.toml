[package]
name = "codexbar"
version = "0.1.0"
edition = "2021"
publish = false

[dependencies]
base64 = "=0.22.1"
chrono = { version = "=0.4.45", features = ["serde"] }
dirs = "=7.0.0"
fluent-templates = "=0.15.1"
keyring = { version = "=3.6.3", features = ["windows-native"] }
reqwest = { version = "=0.12.28", default-features = false, features = ["json", "rustls-tls"] }
serde = { version = "=1.0.229", features = ["derive"] }
serde_json = "=1.0.154"
thiserror = "=2.0.21"
tokio = { version = "=1.54.1", features = ["macros", "process", "rt-multi-thread", "sync", "time", "io-util"] }
tracing = "=0.1.44"
unic-langid = "=0.9.6"
uuid = { version = "=1.29.0", features = ["serde", "v4"] }
which = "=8.0.6"
windows = { version = "0.58", features = ["Win32_Foundation", "Win32_Security", "Win32_System_JobObjects", "Win32_System_Threading"] }
