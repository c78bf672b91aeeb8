[package]
name = "tls_responder"
version = "0.1.0"
edition = "2021"
publish = false

[dependencies]
rustls = { version = "=0.23.45", default-features = false, features = ["ring", "std", "tls12"] }
rustls-pki-types = "=1.15.1"
eyre = "*"
tracing = "*"
tracing-subscriber = { version = "*", features = ["env-filter"] }

[dev-dependencies]
rcgen = { version = "*", default-features = false, features = ["crypto", "pem", "ring"] }
