[package]
name = "luau_format_gui"
version = "0.1.0"
edition = "2021"
publish = false

[dependencies]
eframe = { version = "=0.36.2", default-features = false, features = ["glow", "default_fonts", "x11", "wayland"] }
egui_code_editor = "=0.4.2"
reqwest = { version = "=0.12.28", default-features = false, features = ["rustls-tls"] }
rfd = "=0.17.2"
tokio = { version = "=1.54.1", features = ["macros", "rt-multi-thread"] }
