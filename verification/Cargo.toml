[package]
name = "ibcrm"
version = "0.1.0"
edition = "2021"
publish = false

[dependencies]
ring = "0.17"
chrono = "0.4"
bcrypt = "*"
uuid = { version = "1", features = ["v4"] }
serde = { version = "1", features = ["derive"] }
serde_json = "1"
rusqlite = { version = "*", features = ["bundled"] }
axum = "0.7"
tokio = { version = "1", features = ["rt-multi-thread", "macros", "net", "fs"] }
tower-http = { version = "0.5", features = ["cors"] }
rust_xlsxwriter = "*"
