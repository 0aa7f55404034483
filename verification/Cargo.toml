[package]
name = "terraform_provider_ubicloud"
version = "0.1.0"
edition = "2021"
publish = false

[dependencies]
anyhow = "1"
base64 = "0.21"
hyper = { version = "0.14", features = ["server", "http2", "tcp"] }
prost = "0.12"
rand = "0.8"
rcgen = "0.12"
reqwest = { version = "0.11", default-features = false, features = ["rustls-tls"] }
rmp = "0.8"
rmp-serde = "1"
rustls-pemfile = "2"
serde = { version = "1", features = ["derive"] }
serde_json = "1"
tokio = { version = "1", features = ["macros", "rt-multi-thread", "net", "time", "sync"] }
tokio-rustls = "0.24"
tonic = "0.11"
tower = "0.4"
tracing = "0.1"
tracing-subscriber = "0.3"
