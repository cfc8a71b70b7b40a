[package]
name = "isolate_core"
version = "0.1.0"
edition = "2021"
publish = false

[dependencies]
a2 = "*"
anyhow = "1"
futures = "0.3"
log = "0.4"
mysql_async = { version = "*", default-features = false, features = ["minimal"] }
parking_lot = "0.12"
reqwest = { version = "0.11", default-features = false }
rusty_v8 = "*"
serde = { version = "1", features = ["derive"] }
smr = "*"
thiserror = "1"
tokio = { version = "1", features = ["sync", "rt", "time"] }
