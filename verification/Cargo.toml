[package]
name = "cloudmesh"
version = "0.1.0"
edition = "2021"
publish = false

[dependencies]
chrono = { version = "0.4", features = ["serde"] }
serde = { version = "1", features = ["derive"] }
axum = "0.8"
tokio = { version = "1", features = ["rt-multi-thread", "macros", "net", "time"] }
sqlx = { version = "0.8", default-features = false, features = ["postgres", "runtime-tokio", "chrono"] }
reqwest = { version = "0.12", default-features = false, features = ["json"] }
sysinfo = "0.35"
hostname = "0.4"
dotenvy = "0.15"
