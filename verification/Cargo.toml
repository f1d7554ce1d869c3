[package]
name = "oneforall"
version = "0.1.0"
edition = "2021"
publish = false

[dependencies]
sled = "0.34"
tokio = { version = "1", features = ["rt-multi-thread", "macros", "time", "signal", "process", "net", "io-util"] }
actix-rt = "2"
clap = { version = "4", features = ["derive"] }
log = "0.4"

[dev-dependencies]
tempfile = "3"
