[package]
name = "polyfill_pages"
version = "0.1.0"
edition = "2021"
publish = false

[dependencies]
humansize = "2"
indexmap = "2"
maud = "*"
serde = { version = "1", features = ["derive"] }
serde_json = "1"
