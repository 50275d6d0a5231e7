[package]
name = "feder"
version = "0.1.0"
edition = "2021"
publish = false

[dependencies]
axum = "0.8"
base64 = "0.22"
httpdate = "1"
ipnet = "2"
iri-string = "0.7"
mime = "0.3"
percent-encoding = "2"
reqwest = { version = "0.12", default-features = false }
rsa = { version = "0.9", features = ["sha2"] }
rusqlite = { version = "0.32", features = ["bundled"] }
serde = { version = "1", features = ["derive"] }
serde_json = "1"
thiserror = "2"
tokio = { version = "1", features = ["net", "rt", "macros"] }
url = "2"
zeroize = "1"
