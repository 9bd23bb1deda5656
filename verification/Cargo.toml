[package]
name = "reverse_proxy"
version = "0.1.0"
edition = "2021"
publish = false

[dependencies]
arc-swap = "1"
async-trait = "0.1"
boring = "*"
chrono = { version = "0.4", features = ["serde"] }
http = "1"
instant-acme = { version = "0.8", default-features = false, features = ["ring", "hyper-rustls", "rcgen"] }
pingora = { version = "*", features = ["openssl", "proxy"] }
rcgen = { version = "*", default-features = false, features = ["crypto", "pem", "ring"] }
reqwest = { version = "0.12", default-features = false, features = ["rustls-tls", "json"] }
rustls = { version = "0.23", default-features = false, features = ["ring", "std"] }
serde = { version = "1", features = ["derive"] }
serde_json = "1"
thiserror = "2"
tokio = { version = "1", features = ["rt-multi-thread", "macros", "time", "sync"] }
toml = "*"
