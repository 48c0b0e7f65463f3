[package]
name = "notes_gate"
version = "0.1.0"
edition = "2021"
publish = false

[dependencies]
askama_escape = "0.10"
percent-encoding = "2"
uuid = { version = "1", features = ["v4"] }
serde_json = "1"
serde = { version = "1", features = ["derive"] }
actix-web = { version = "4", default-features = false, features = ["macros"] }
actix-files = "0.6"
lazy_static = "1"
