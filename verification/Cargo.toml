[package]
name = "sql_gateway"
version = "0.1.0"
edition = "2021"
publish = false

[dependencies]
log = "0.4"
serde = { version = "1", features = ["derive"] }
serde_json = "1"
sqlx = { version = "0.8", default-features = false, features = ["runtime-tokio", "sqlite"] }
tauri = { version = "2", default-features = false }
tauri-plugin-log = { version = "2", default-features = false }
tokio = { version = "1", features = ["rt", "rt-multi-thread", "sync"] }
