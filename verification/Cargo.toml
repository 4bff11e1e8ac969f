[package]
name = "ancestors"
version = "0.1.0"
edition = "2021"
publish = false

[dependencies]
tokio = { version = "=1.53.2", features = ["sync", "time", "rt-multi-thread"] }
futures = "=0.3.34"
async-condvar-fair = { version = "=1.0.1", features = ["tokio"] }
ulid = "=3.0.0"
ctrlc = "=3.5.2"
