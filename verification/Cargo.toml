[package]
name = "dynisland_reconcile"
version = "0.1.0"
edition = "2021"
publish = false

[dependencies]
anyhow = "1"
chrono = { version = "0.4", default-features = false, features = ["clock", "std"] }
dyn-fmt = "*"
log = "0.4"
ron = "*"
serde = { version = "1", features = ["derive"] }
serde_json = "1"
tokio = { version = "1", features = ["rt-multi-thread", "sync", "time", "macros"] }
zbus = { version = "*", default-features = false, features = ["tokio"] }
