[package]
name = "typst_shared"
version = "0.1.0"
edition = "2021"
publish = false

[dependencies]
chrono = "0.4"
ecow = "0.2"
hex = "0.4"
parking_lot = "0.12"
serde = { version = "1", features = ["derive"] }
serde_json = "1"
serde_yaml = "0.9"
siphasher = "1"
typst = "0.13"
typst-eval = "0.13"
typst-html = "0.13"
typst-kit = { version = "0.13", default-features = false, features = ["fonts"] }
typst-render = "0.13"
typst-svg = "0.13"
typstyle-core = "0.13"
