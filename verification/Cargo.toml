[package]
name = "mandag"
version = "0.1.0"
edition = "2021"
publish = false

[dependencies]
mime = "=0.3.17"
http = "=0.2.12"
hyper = { version = "=0.14.32", features = ["server", "http1", "tcp"] }
tokio = { version = "=1.54.1", features = ["rt", "macros"] }
serde = { version = "=1.0.229", features = ["derive"] }
serde_json = "=1.0.154"
serde_urlencoded = "0.7"
async-trait = "=0.1.92"
parking_lot = "=0.12.5"
relative-path = { version = "=1.9.3", features = ["serde"] }
tera = "=1.20.1"
thiserror = "=1.0.69"
syn = { version = "=1.0.109", features = ["full"] }
quote = "=1.0.47"
proc-macro2 = "=1.0.107"
darling = "=0.14.4"
proc-macro-crate = "=1.3.1"
pin-project-lite = "=0.2.17"
