[package]
name = "nimbus"
version = "0.1.0"
edition = "2021"
publish = false

[dependencies]
anyhow = "=1.0.104"
chrono = { version = "=0.4.45", default-features = false, features = ["std"] }
dirs = "=7.0.0"
eframe = { version = "=0.31.1", default-features = false, features = ["glow", "default_fonts", "x11"] }
env_logger = { version = "=0.11.11", default-features = false }
image = { version = "=0.25.10", default-features = false, features = ["png"] }
log = "=0.4.35"
reqwest = { version = "=0.12.28", default-features = false, features = ["json", "rustls-tls"] }
serde = { version = "=1.0.229", features = ["derive"] }
tokio = { version = "=1.54.1", features = ["rt-multi-thread"] }
toml = "=1.1.8"
tray-icon = { version = "=0.26.1", default-features = false }
urlencoding = "=2.1.3"
winit = { version = "0.30", default-features = false }
