[package]
name = "ntrans"
version = "0.1.0"
edition = "2021"
publish = false

[dependencies]
serde = { version = "1", features = ["derive"] }
serde_json = "1"
reqwest = { version = "0.13", default-features = false, features = ["json", "query", "native-tls", "system-proxy", "charset"] }
tokio = { version = "1", features = ["rt-multi-thread", "macros", "time"] }
clap = { version = "4", features = ["derive"] }
dirs = "6"
thiserror = "2"
chrono = "0.4"
eframe = { version = "0.36", default-features = false, features = ["glow", "x11", "default_fonts"] }
egui = { version = "0.36", default-features = false, features = ["default_fonts"] }
