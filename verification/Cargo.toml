[package]
name = "rust-nssm"
version = "0.1.0"
edition = "2021"
publish = false

[dependencies]
anyhow = "1"
chrono = "0.4"
clap = { version = "4", features = ["derive"] }
ctrlc = "3"
env_logger = "0.11"
log = "0.4"
serde_json = "1"
tokio = { version = "1", features = ["macros", "rt-multi-thread", "sync", "time"] }
windows-service = "0.7"
windows-sys = { version = "0.52", features = ["Win32_Foundation", "Win32_Security", "Win32_System_Registry", "Win32_System_Services"] }
