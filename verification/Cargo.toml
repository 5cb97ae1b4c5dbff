[package]
name = "pocket_ark_client"
version = "0.1.0"
edition = "2021"
publish = false

[dependencies]
anyhow = "1"
bytes = "1"
hyper = { version = "=0.14.32", features = ["server", "client", "http1", "runtime"] }
log = "0.4"
openssl = "0.10"
reqwest = { version = "=0.11.27", features = ["json", "native-tls"] }
semver = "1"
serde = { version = "1", features = ["derive"] }
thiserror = "1"
tokio = { version = "1", features = ["rt-multi-thread", "net", "io-util", "macros", "time"] }
tokio-openssl = "0.6"
url = "=2.5.8"
