[package]
name = "tosa_core"
version = "0.1.0"
edition = "2021"
publish = false

[dependencies]
base64 = "=0.21.7"
dirs = "5"
jieba-rs = "=0.11.0"
lazy_static = "1"
libloading = "0.8"
log = "0.4"
once_cell = "1"
regex = "=1.13.1"
serde = { version = "1", features = ["derive"] }
serde_json = "=1.0.154"
whichlang = "=0.1.1"
widestring = "1"
