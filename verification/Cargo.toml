[package]
name = "dash_evo_tool"
version = "0.1.0"
edition = "2021"
publish = false

[dependencies]
base64 = "=0.23.1"
bip39 = { version = "=3.0.0", features = ["rand"] }
chrono = "=0.4.45"
chrono-humanize = "=0.2.3"
eframe = { version = "=0.37.0", default-features = false, features = ["glow", "x11", "default_fonts"] }
egui = { version = "=0.37.0", default-features = false }
egui_extras = { version = "=0.37.0", default-features = false }
hex = "=0.4.3"
itertools = "=0.15.0"
rusqlite = { version = "=0.41.0", features = ["bundled"] }
serde_json = "=1.0.154"
thiserror = "=2.0.21"
tokio = { version = "=1.54.1", features = ["time", "rt", "sync"] }
tracing = "=0.1.44"
