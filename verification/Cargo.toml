[package]
name = "webshot"
version = "0.1.0"
edition = "2021"
publish = false

[dependencies]
url = "=2.5.8"
reqwest = { version = "0.11", default-features = false }
teloxide = { version = "=0.12.2", default-features = false, features = ["macros", "webhooks-axum", "ctrlc_handler", "rustls"] }
takecell = "=0.1.1"
dptree = "=0.3.0"
headless_chrome = "=0.9.0"
tokio = { version = "1", features = ["macros", "rt-multi-thread", "time", "sync"] }
anyhow = "1"
dotenv = "0.15"
envy = "0.4"
log = "0.4"
pretty_env_logger = "0.5"
serde = { version = "1", features = ["derive"] }
