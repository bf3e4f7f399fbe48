[package]
name = "tls_client_stream"
version = "0.1.0"
edition = "2021"
publish = false

[dependencies]
futures = "=0.1.31"
native-tls = "=0.2.18"
openssl = "=0.10.81"
security-framework = "=3.7.0"
tokio-core = "=0.1.18"
tokio-tls = "=0.2.1"
trust-dns = { version = "0.15", default-features = false }
