[package]
name = "vh1_bot"
version = "0.1.0"
edition = "2021"
publish = false

[dependencies]
rand = "0.9"
lavalink-rs = "0.14"
tokio = { version = "1", features = ["full"] }
poise = "0.6"
songbird = { version = "0.4", default-features = false, features = ["gateway", "serenity", "rustls"] }
serde = { version = "1", features = ["derive"] }
serde_json = "1"
toml = "0.8"
reqwest = { version = "0.11", default-features = false, features = ["json", "rustls-tls"] }
chrono = "0.4"
tracing = "0.1"
tracing-subscriber = "0.3"
axum = "0.6"
tower-http = { version = "0.4", features = ["fs"] }
hound = "3"
dashmap = "5"
