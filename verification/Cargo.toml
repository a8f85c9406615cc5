[package]
name = "container_health"
version = "0.1.0"
edition = "2021"
publish = false

[dependencies]
bollard = "0.19"
chrono = "0.4"
clap = { version = "4", features = ["derive"] }
color-print = "0.3"
futures-util = "0.3"
redis = "*"
serde = { version = "1", features = ["derive"] }
serde_json = "1"
sqlx = { version = "0.8", default-features = false, features = ["runtime-tokio", "sqlite"] }
tokio = { version = "1", features = ["macros", "rt-multi-thread", "time"] }
