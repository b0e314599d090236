[package]
name = "rust_epub"
version = "0.1.0"
edition = "2021"
publish = false

[dependencies]
zip = { version = "0.6", default-features = false, features = ["deflate"] }
roxmltree = "0.14"
mime = "0.3"
url = "2"
anyhow = "1"
async-trait = "0.1"
tokio = { version = "1", features = ["fs", "io-util", "rt", "rt-multi-thread", "macros"] }
iced_native = "*"
