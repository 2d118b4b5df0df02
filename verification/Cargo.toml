[package]
name = "ramsleuth_gui"
version = "2.1.0"
edition = "2021"
publish = false

[dependencies]
png = "0.17"
serde = { version = "1", features = ["derive"] }
serde_json = "1"
egui = "=0.27.2"
egui_extras = { version = "=0.27.2", default-features = false }
