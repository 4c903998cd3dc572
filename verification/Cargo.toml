[package]
name = "random_stream"
version = "0.1.0"
edition = "2021"
publish = false

[dependencies]
dotenv = "0.15"
eframe = { version = "0.18", features = ["persistence"] }
egui = "0.18"
egui_extras = { version = "0.18", features = ["image"] }
error-chain = "0.12"
futures = "0.3"
image = { version = "0.24", default-features = false, features = ["jpeg", "png"] }
rand = "0.8"
reqwest-wasm = { version = "*", features = ["json"] }
serde = { version = "1", features = ["derive"] }
