[package]
name = "mulder"
version = "0.1.0"
edition = "2021"
publish = false

[dependencies]
chrono = { version = "=0.4.45", default-features = false, features = ["alloc"] }
console = "=0.16.6"
spa = "*"

[dev-dependencies]
regex = "=1.13.1"
