[package]
name = "onvif_cam_rs"
version = "0.1.0"
edition = "2021"
publish = false

[dependencies]
anyhow = "1"
async-trait = "0.1"
base64 = "0.22"
log = "0.4"
rand = "0.8"
reqwest = { version = "0.12", default-features = false }
sha1 = "0.10"
tokio = { version = "1", features = ["macros", "net", "rt", "time"] }
url = "2"
uuid = { version = "1", features = ["v4"] }
