[package]
name = "dm2"
version = "0.1.0"
edition = "2021"
publish = false

[dependencies]
futures = "0.3"
getopts = "0.2"
hyper = "0.13"
lazy_static = "1"
prometheus = "0.8"
serde = { version = "1", features = ["derive"] }
serde_json = "1"
tokio = { version = "0.2", features = ["macros", "rt-threaded", "signal", "time", "sync"] }
warp = "0.2"
