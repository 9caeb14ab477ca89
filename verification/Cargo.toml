[package]
name = "usage_dash"
version = "0.1.0"
edition = "2021"
publish = false

[dependencies]
rusqlite = "*"
askama = "*"
async-trait = "*"
axum = "0.8"
chrono = "*"
reqwest = { version = "*", default-features = false, features = ["json", "rustls-tls"] }
secrecy = "*"
serde = { version = "1", features = ["derive"] }
serde_json = "1"
thiserror = "*"
tokio = { version = "1", features = ["macros", "rt-multi-thread", "net", "process"] }
tower-http = { version = "*", features = ["fs"] }
