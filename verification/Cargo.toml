[package]
name = "axum_tonic"
version = "0.1.0"
edition = "2021"
publish = false

[dependencies]
axum = "0.8"
tonic = "0.12"
http = "1"
hyper = "1"
prost = "0.13"
tower = "0.5"
futures = "0.3"
tokio = { version = "1", features = ["macros", "rt-multi-thread", "net", "time"] }
