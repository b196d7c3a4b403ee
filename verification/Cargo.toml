[package]
name = "lemmy_client"
version = "1.0.0"
edition = "2021"
publish = false

[dependencies]
cfg-if = "1"
gloo-net = "*"
http = "1"
lemmy_api_common = "*"
reqwest = { version = "0.12", features = ["json"] }
serde = { version = "1", features = ["derive"] }
serde_json = "1"
serde_urlencoded = "0.7"
thiserror = "*"
wasm-bindgen = "0.2"
