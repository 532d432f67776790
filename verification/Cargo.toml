[package]
name = "loopers"
version = "0.1.2"
edition = "2021"
publish = false

[dependencies]
crossbeam-channel = "*"
clap = { version = "4", features = ["derive"] }
fern = "*"
log = "*"
chrono = "*"

[dev-dependencies]
hound = "*"
