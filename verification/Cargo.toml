[package]
name = "w3w-api"
version = "0.1.0"
edition = "2021"
publish = false

[dependencies]
anyhow = "1"
derivative = "2"
geo-types = "0.7"
serde = { version = "1", features = ["derive"] }
serde_json = "1"
structopt = "0.3"
strum = { version = "0.24", features = ["derive"] }
thiserror = "1"
tracing = "0.1"
tracing-subscriber = { version = "0.3", features = ["env-filter", "json"] }
ureq = { version = "2", features = ["json"] }
url = { version = "2", features = ["serde"] }
