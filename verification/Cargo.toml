[package]
name = "osc_bot"
version = "0.1.0"
edition = "2021"
publish = false

[dependencies]
quick-xml = "=0.42.0"
url = "=2.5.8"
osu-db = "=0.3.0"
poise = "=0.6.2"
reqwest = { version = "=0.12.28", default-features = false, features = ["rustls-tls"] }
sqlx = { version = "=0.8.6", features = ["sqlite", "runtime-tokio"] }
rosu-v2 = "=0.11.0"
firebase-rs = "=2.2.5"
futures-util = "=0.3.34"
tracing = "=0.1.44"
# The async runtime that app/ starts the bot on (`#[tokio::main]`, the feed
# task's timer); the bot's own sources name no runtime crate.
tokio = { version = "=1.54.1", features = ["macros", "rt-multi-thread"] }
