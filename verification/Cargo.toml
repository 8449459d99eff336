[package]
name = "minecraft-essentials"
version = "0.2.13"
edition = "2021"
publish = false

[dependencies]
url = "2"
serde_json = "1"
base64 = "0.22"
sha2 = "0.10"
ring = "0.17"
hex = "0.4"
rand = "0.8"
serde = { version = "1", features = ["derive"] }
reqwest = { version = "0.12", default-features = false, features = ["json", "rustls-tls"] }
tokio = { version = "1", features = ["rt-multi-thread", "macros", "net", "io-util", "sync", "time"] }
clap = { version = "4", features = ["derive"] }
thiserror = "1"
displaydoc = "0.2"
