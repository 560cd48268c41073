[package]
name = "znp"
version = "0.1.0"
edition = "2021"
publish = false

[dependencies]
bincode = { version = "2", default-features = false, features = ["std"] }
enumflags2 = "0.7"
semver = "1"
serialport = { version = "4", default-features = false }
thiserror = "1"
