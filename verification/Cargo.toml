[package]
name = "kraft"
version = "0.1.0"
edition = "2021"
publish = false

[dependencies]
flate2 = "1"
hashbrown = { version = "0.14", features = ["serde"] }
uuid = { version = "1", features = ["v4", "serde"] }
serde_json = "1"
serde = { version = "1", features = ["derive"] }
serde_derive = "1"
rmp-serde = "1"
rand = "0.8"
toml = "0.5"
clap = { version = "3", features = ["derive"] }
tokio = { version = "1", features = ["full"] }
log = "0.4"
simple_logger = "*"
color-eyre = "0.6"
crossbeam-channel = "0.5"
futures = "0.3"
serde_prefix = "*"
tonic = "0.7"
prost = "0.10"
http = "0.2"
meilisearch-sdk = "*"
