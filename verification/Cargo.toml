[package]
name = "bvr_chirp"
version = "0.1.0"
edition = "2021"
publish = false

[dependencies]
serde_json = "1"
base64 = "0.22"
crossbeam-channel = "0.5"
serde = { version = "1", features = ["derive"] }
confy = "0.6"
rumqttc = "0.24"
reqwest = { version = "0.12", default-features = false, features = ["blocking", "multipart", "json"] }
