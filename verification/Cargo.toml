[package]
name = "video_service"
version = "0.1.0"
edition = "2021"
publish = false

[dependencies]
lazy_static = "1"
log = "0.4"
num_cpus = "1"
tokio = { version = "1", default-features = false, features = ["rt", "rt-multi-thread", "sync", "time"] }
