[package]
name = "tls_ca"
version = "0.1.0"
edition = "2021"
publish = false

[dependencies]
ring = "=0.17.14"
rustls = { version = "=0.23.45", default-features = false, features = ["ring", "std", "tls12"] }
rustls-pemfile = "=2.2.0"
rustls-pki-types = "=1.15.1"
rustls-webpki = { version = "=0.103.15", default-features = false, features = ["alloc", "ring"] }
tokio-rustls = { version = "=0.26.6", default-features = false, features = ["ring", "tls12"] }
tokio = { version = "=1.53.2", features = ["rt-multi-thread", "net", "io-util", "signal", "time", "macros"] }
