[package]
name = "spotifatius"
version = "0.1.0"
edition = "2021"
publish = false

[dependencies]
anyhow = "=1.0.104"
clap = { version = "=3.2.25", features = ["derive"] }
futures = "=0.3.34"
html-escape = "=0.2.15"
prost = "=0.11.9"
rspotify = { version = "0.12", features = ["cli", "env-file"] }
rspotify-model = "0.12"
serde = { version = "=1.0.229", features = ["derive"] }
serde_json = "=1.0.154"
tokio = { version = "=1.54.1", features = ["full"] }
tokio-stream = { version = "=0.1.19", features = ["sync"] }
toml = "=0.5.11"
tonic = "=0.8.3"
tracing = "=0.1.44"
tracing-subscriber = { version = "=0.3.23", features = ["env-filter"] }
zbus = "=3.15.2"
zvariant = "=3.15.2"
