[package]
name = "ayiah"
version = "0.1.0"
edition = "2021"
publish = false

[dependencies]
regex = "1"
moka = { version = "0.12", features = ["sync"] }
urlencoding = "2"
serde = { version = "1", features = ["derive"] }
serde_json = "1"
reqwest = { version = "0.12", default-features = false, features = ["json", "rustls-tls"] }
tokio = { version = "1", features = ["fs", "io-util", "time"] }
async-trait = "0.1"
walkdir = "2"
quick-xml = { version = "*", features = ["serialize"] }
thiserror = "*"
anyhow = "1"
tracing = "0.1"
