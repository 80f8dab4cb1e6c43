[package]
name = "session_auth"
version = "0.1.0"
edition = "2021"
publish = false

[dependencies]
actix-session = { version = "0.10", features = ["cookie-session"] }
actix-web = { version = "4", default-features = false, features = ["cookies"] }
serde = { version = "1", features = ["derive"] }
serde_json = "1"
log = "0.4"
