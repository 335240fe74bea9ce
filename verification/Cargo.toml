[package]
name = "experiment"
version = "0.1.0"
edition = "2021"
publish = false

[dependencies]
axum = "*"
serde = { version = "*", features = ["derive"] }
tokio = { version = "*", features = ["macros", "rt-multi-thread", "net"] }
tokio-rusqlite = { version = "*", features = ["bundled"] }
tower-http = { version = "*", features = ["compression-gzip"] }
