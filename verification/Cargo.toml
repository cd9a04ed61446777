[package]
name = "cult_backend"
version = "0.1.0"
edition = "2021"
publish = false

[dependencies]
alloy = { version = "=2.5.0", default-features = false }
alloy-merkle-tree = "=0.7.4"
hex = "=0.4.3"
rand = "=0.9.5"
chrono = { version = "=0.4.45", features = ["serde"] }
serde = { version = "=1.0.229", features = ["derive"] }
serde_json = "=1.0.154"
bigdecimal = { version = "=0.4.11", features = ["serde"] }
sqlx = { version = "=0.9.0", default-features = false, features = ["postgres", "runtime-tokio", "chrono", "bigdecimal", "uuid", "json"] }
tokio = { version = "=1.54.1", features = ["rt-multi-thread", "macros", "sync", "time"] }
actix = "=0.13.5"
actix-web = { version = "=4.18.1", default-features = false, features = ["macros", "ws"] }
actix-web-actors = "=4.3.1"
actix-service = "=2.0.3"
reqwest = { version = "=0.13.5", default-features = false, features = ["json"] }
anyhow = "=1.0.104"
log = "=0.4.35"
futures = { version = "=0.3.34", default-features = false, features = ["std"] }
uuid = { version = "=1.29.0", features = ["v4", "serde"] }
