[package]
name = "rustyfix"
version = "0.1.0"
edition = "2021"
publish = false

[dependencies]
rustc-hash = "2"
smallvec = "1"
nohash-hasher = "0.2"
chrono = { version = "0.4", default-features = false, features = ["std"] }
rust_decimal = "1"
smartstring = "1"
thiserror = "2"
log = "0.4"
fastrace = "*"
parking_lot = "0.12"
rasn = "*"
