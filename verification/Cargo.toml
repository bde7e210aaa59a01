[package]
name = "twitter_exporter"
version = "0.1.0"
edition = "2021"
publish = false

[dependencies]
job_scheduler = "1.2"
chrono = "0.4"
egg-mode = { version = "0.16", default-features = false, features = ["rustls"] }
hyper = { version = "0.14", features = ["server", "http1", "tcp"] }
tokio = { version = "1", features = ["rt-multi-thread", "macros", "time"] }
serde = { version = "1", features = ["derive"] }
serde_derive = "1"
toml = "0.5"
env_logger = "0.9"
log = "0.4"
