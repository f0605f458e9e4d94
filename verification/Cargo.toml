[package]
name = "dentrust"
version = "0.1.0"
edition = "2021"
publish = false

[dependencies]
tokio = { version = "1", features = ["sync", "rt-multi-thread", "macros"] }
eframe = { version = "0.19", features = ["persistence"] }
egui = "0.19"
serde = { version = "1", features = ["derive"] }
tracing-subscriber = "0.3"
