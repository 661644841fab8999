[package]
name = "kanji_master"
version = "0.1.0"
edition = "2021"
publish = false

[dependencies]
rand = "0.9"
roxmltree = "0.20"
toml = "0.8"
serde = { version = "1", features = ["derive"] }
serde_json = "1"
anyhow = "1"
directories = "6"
kurbo = "0.11"
svgtypes = "0.15"
rusqlite = { version = "0.32", features = ["bundled", "functions"] }
