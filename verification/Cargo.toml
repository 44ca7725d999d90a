[package]
name = "streamer_notifier"
version = "0.1.0"
edition = "2021"
publish = false

[dependencies]
anyhow = "=1.0.104"
dotenvy = "=0.15.7"
flume = "=0.11.1"
futures = "=0.3.34"
poise = "=0.6.2"
reqwest = { version = "=0.13.5", default-features = false }
serde = { version = "=1.0.229", features = ["derive"] }
serde_json = "=1.0.154"
tokio = { version = "=1.54.1", features = ["full"] }
tokio-tungstenite = "=0.21.0"
twitch_api = { version = "=0.8.0", features = ["eventsub", "helix", "reqwest"] }
url = "=2.5.8"
