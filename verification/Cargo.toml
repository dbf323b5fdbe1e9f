[package]
name = "article_server"
version = "0.1.0"
edition = "2021"
publish = false

[dependencies]
rusqlite = { version = "=0.40.2", features = ["bundled"] }
chrono = "=0.4.45"
warp = { version = "=0.4.3", features = ["server"] }
tokio = { version = "=1.53.2", features = ["macros", "rt-multi-thread"] }
serde_json = "=1.0.151"
pretty_env_logger = "=0.5.0"
