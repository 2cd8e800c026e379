[package]
name = "mightybadger"
version = "0.1.0"
edition = "2021"
publish = false

[dependencies]
attohttpc = { version = "*", default-features = false, features = ["json"] }
chrono = "*"
failure = "0.1"
lazy_static = "*"
rand = "0.8"
rustc_version_runtime = "*"
scoped-tls = "*"
serde = { version = "1", features = ["derive"] }
serde_json = "*"
uuid = "*"
