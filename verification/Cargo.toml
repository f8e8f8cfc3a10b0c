[package]
name = "yzy_prom"
version = "0.1.0"
edition = "2021"
publish = false

[dependencies]
anyhow = "*"
async_once = "*"
lazy_static = "*"
paste = "*"
prometheus_exporter = "*"
tokio = { version = "*", features = ["macros", "rt-multi-thread", "sync"] }
