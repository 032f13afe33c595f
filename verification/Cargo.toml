[package]
name = "semcache"
version = "0.1.0"
edition = "2021"
publish = false

[dependencies]
bincode = "1.3"
chrono = { version = "0.4", default-features = false, features = ["clock", "serde", "std"] }
dashmap = "6.1"
hex = "0.4"
pyo3 = "0.22"
serde = { version = "1", features = ["derive"] }
sha2 = "0.10"
simsimd = "*"
