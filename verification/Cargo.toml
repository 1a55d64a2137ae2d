[package]
name = "fgo_sheba"
version = "0.1.0"
edition = "2021"
publish = false

[dependencies]
serde = { version = "1", features = ["derive"] }
serde_json = "1"
thiserror = "*"
log = "*"
once_cell = "*"
rand = "0.8"
image = { version = "*", default-features = false }
jni = "*"
