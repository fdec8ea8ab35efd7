[package]
name = "dock_door_service"
version = "0.1.0"
edition = "2021"
publish = false

[dependencies]
chrono = "*"
anyhow = "*"
dotenvy = "*"
log = "*"
log4rs = "*"
plctag = "*"
rayon = "*"
serde = { version = "*", features = ["derive"] }
sqlx-oldapi = { version = "*", default-features = false, features = ["mssql", "runtime-tokio-rustls"] }
tokio = { version = "*", features = ["rt-multi-thread"] }
