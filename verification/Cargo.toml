[package]
name = "pancakes"
version = "0.1.0"
edition = "2021"
publish = false

[dependencies]
pep440_rs = "*"
chrono = { version = "0.4", features = ["serde"] }
serde = { version = "1", features = ["derive"] }
serde_json = "1"
tokio = { version = "1", features = ["full"] }
tokio-util = "0.7"
futures = "0.3"
async-trait = "*"
anyhow = "1"
log = "0.4"
which = "*"
directories = "*"
home = "*"
url = { version = "2", features = ["serde"] }
indexmap = "2"
itertools = "*"
strum = { version = "*", features = ["derive"] }
reqwest = { version = "0.12", default-features = false, features = ["rustls-tls"] }
