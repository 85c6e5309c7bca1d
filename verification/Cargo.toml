[package]
name = "todo_store"
version = "0.1.0"
edition = "2021"
publish = false

[dependencies]
uuid = { version = "1", features = ["v4"] }
serde = { version = "1", features = ["derive"] }
actix-web = { version = "4", default-features = false, features = ["macros"] }
dotenvy = { version = "0.15" }
env_logger = { version = "0.11", default-features = false }

[dev-dependencies]
serde_json = { version = "1" }
