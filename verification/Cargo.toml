[package]
name = "shared"
version = "0.1.0"
edition = "2021"
publish = false

[dependencies]
uuid = { version = "=1.29.0", features = ["v4"] }
axum = { version = "=0.7.9" }
tokio = { version = "=1.54.1", features = ["rt-multi-thread", "macros", "net"] }

[dev-dependencies]
tower = { version = "=0.5.3", features = ["util"] }
