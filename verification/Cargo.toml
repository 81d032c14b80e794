[package]
name = "gacha_record"
version = "0.1.0"
edition = "2021"
publish = false

[dependencies]
url = "2"
regex = "1"
chrono = "0.4"
anyhow = "1"
serde = { version = "1", features = ["derive"] }
serde_json = "1"
reqwest = { version = "0.12", default-features = false, features = ["json", "stream", "rustls-tls"] }
tokio = { version = "1", features = ["rt-multi-thread", "macros", "fs", "io-util"] }
futures-util = "0.3"
ratelimit = "0.9"
sysinfo = "0.30"
toml = "0.8"
tracing = "0.1"
tracing-subscriber = { version = "0.3", features = ["local-time"] }
time = { version = "0.3", features = ["macros"] }
egui = "0.28"
egui_plot = "0.28"
rfd = { version = "0.14", default-features = false, features = ["xdg-portal", "tokio"] }
