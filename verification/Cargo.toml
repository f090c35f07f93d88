[package]
name = "daemos"
version = "0.1.0"
edition = "2021"
publish = false

[dependencies]
fuzzy-matcher = "0.3.7"
regex = "1.11"
rand = "0.9.5"
serde = { version = "1", features = ["derive"] }
toml = "0.8.23"
chrono = { version = "0.4", default-features = false, features = ["now", "std", "serde"] }
uuid = { version = "1", features = ["v4"] }
walkdir = "2.5.0"
rusqlite = { version = "0.37.0", features = ["bundled"] }
crossbeam = "0.8.4"
tracing = "0.1"
tracing-subscriber = { version = "0.3", features = ["env-filter"] }
thiserror = "2"
color-eyre = { version = "0.6", default-features = false }
symphonia = "0.5.4"
eframe = { version = "0.32.3", default-features = false, features = ["default_fonts", "glow", "x11"] }
egui = "0.32.3"
egui_extras = "0.32.3"
egui_dock = "0.17.0"
egui_plot = "0.33.0"
