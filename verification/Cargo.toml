[package]
name = "cert_auth"
version = "0.1.0"
edition = "2021"
publish = false

[dependencies]
jsonwebtoken = { version = "=11.1.0", features = ["rust_crypto"] }
rand = "=0.8.8"
serde = { version = "1", features = ["derive"] }
serde_derive = "1"
serde_json = "1"
hyper = { version = "=0.14.32", features = ["server", "http1", "tcp"] }
tokio = { version = "=1.53.2", features = ["rt-multi-thread", "macros"] }
clap = { version = "=3.2.25", features = ["derive"] }
reqwest = { version = "=0.11.27", default-features = false, features = ["json"] }
nyantec-cert-auth = "=0.1.1"
