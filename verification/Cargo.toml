[package]
name = "arcbox"
version = "0.1.0"
edition = "2021"
publish = false

[dependencies]
clap = { version = "=4.6.7", features = ["derive"] }
prost = "*"
tokio = { version = "=1.54.1", features = ["rt-multi-thread", "macros", "io-util", "net", "time", "sync"] }
