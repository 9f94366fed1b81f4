[package]
name = "inventory_core"
version = "0.1.0"
edition = "2021"
publish = false

[dependencies]
serde = { version = "*", features = ["derive"] }
serde_json = "*"
chrono = "*"
uuid = "*"
rdkafka = { version = "*", features = ["tokio"] }
tokio = { version = "*", features = ["rt-multi-thread", "macros"] }
dotenvy = "*"
actix-web = "*"
