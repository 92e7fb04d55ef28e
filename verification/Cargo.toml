[package]
name = "arcdna"
version = "0.1.0"
edition = "2021"
publish = false

[dependencies]
anchor-lang = { version = "=0.32.2", features = ["init-if-needed"] }
arcium-anchor = "=0.8.5"
arcium-client = { version = "=0.8.5", default-features = false }
arcium-macros = "=0.8.5"
