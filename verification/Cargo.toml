[package]
name = "rusti2p"
version = "0.1.0"
edition = "2021"
publish = false

[dependencies]
rustc-serialize = "0.3"
chrono = { version = "0.4", default-features = false, features = ["std", "alloc"] }
