[package]
name = "creme-brulee"
version = "0.1.0"
edition = "2021"
publish = false

[dependencies]
axum = "=0.8.9"
axum-server = { version = "=0.7.3", features = ["tls-rustls-no-provider"] }
rustls = { version = "=0.23.46", default-features = false, features = ["ring", "std", "tls12", "logging"] }
serde = { version = "=1.0.229", features = ["derive"] }
tokio = { version = "=1.54.1", features = ["rt-multi-thread", "macros", "net", "fs"] }
toml = "=0.8.23"
tower = { version = "=0.5.3", features = ["util"] }
tower-http = { version = "=0.6.11", features = ["fs", "compression-br", "compression-zstd", "decompression-br", "decompression-zstd", "decompression-gzip", "set-header"] }
tracing = "=0.1.44"
tracing-subscriber = "=0.3.23"

[dev-dependencies]
rcgen = "0.13"
