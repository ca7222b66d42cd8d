[package]
name = "paperclip_adjacent"
version = "0.1.0"
edition = "2021"
publish = false

[dependencies]
dotenvy = "0.15"
eframe = { version = "0.31", default-features = false, features = ["default_fonts", "glow", "persistence", "x11"] }
egui = "0.31"
reqwest = { version = "0.12", default-features = false, features = ["json"] }
serde = { version = "1", features = ["derive"] }
serde_json = "1"
tokio = { version = "1", features = ["rt-multi-thread"] }
