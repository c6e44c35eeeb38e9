[package]
name = "kaguya"
version = "0.2.0"
edition = "2021"
publish = false

[dependencies]
axum = "0.8"
base64 = "0.22"
jsonwebtoken = "9"
prost = "0.14"
rand = "0.8"
reqwest = { version = "0.12", default-features = false, features = ["json", "rustls-tls"] }
rsa = "0.9"
rusqlite = { version = "0.32", features = ["bundled"] }
serde = { version = "1", features = ["derive"] }
serde_json = "1"
sha2 = "0.10"
tokio = { version = "1", features = ["macros", "net", "rt-multi-thread", "sync"] }
tonic = "0.14"
tonic-prost = "0.14"
tower-http = { version = "0.6", features = ["fs"] }
