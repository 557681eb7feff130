[package]
name = "orpheus"
version = "0.1.0"
edition = "2021"
publish = false

[dependencies]
anyhow = "1"
clap = { version = "4", features = ["derive"] }
crossterm = "=0.29.0"
eframe = { version = "=0.37.0", default-features = false, features = ["glow", "default_fonts", "x11"] }
hidapi = { version = "2", default-features = false, features = ["linux-native-basic-udev"] }
ratatui = { version = "=0.30.2", default-features = false, features = ["crossterm"] }
serde = { version = "1", features = ["derive"] }
serde_json = "1"
sysinfo = { version = "=0.40.1", default-features = false, features = ["system"] }
toml = "*"
