[package]
name = "armature_session"
version = "0.3.1"
edition = "2021"
publish = false

[dependencies]
chrono = { version = "=0.4.45", features = ["serde"] }
uuid = { version = "=1.29.0", features = ["v4"] }
reqwest = { version = "=0.13.5", default-features = false, features = ["json"] }
serde = { version = "=1.0.229", features = ["derive"] }
serde_json = "=1.0.154"
redis = { version = "=1.8.1", features = ["tokio-comp", "connection-manager"] }
memcache = { version = "=0.21.0", default-features = false }
tokio = { version = "=1.54.1", features = ["sync", "macros", "rt"] }
async-trait = "=0.1.92"
thiserror = "=2.0.21"
