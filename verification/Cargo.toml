[package]
name = "cpdb-rs"
version = "0.1.0"
edition = "2021"
publish = false

[dependencies]
zbus = { version = "5", default-features = false, features = ["tokio"] }
tokio = { version = "1", features = ["rt-multi-thread", "macros", "time"] }
futures-util = "0.3"
log = "0.4"
serde = { version = "1", features = ["derive"] }
thiserror = "2"
