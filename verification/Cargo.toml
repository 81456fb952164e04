[package]
name = "password_worker"
version = "0.1.0"
edition = "2021"
publish = false

[dependencies]
rust-argon2 = { version = "=3.0.0", default-features = false }
bcrypt = "=0.19.3"
getrandom = "=0.4.3"
crossbeam-channel = "=0.5.17"
rayon = "=1.12.0"
thiserror = "=2.0.21"
tokio = { version = "=1.54.1", features = ["sync", "rt", "macros"] }
