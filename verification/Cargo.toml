[package]
name = "ddose"
version = "0.1.0"
edition = "2021"
publish = false

[dependencies]
embedded-hal = "0.2"
libc = "0.2"
thiserror = "1"
tokio = { version = "1", features = ["net", "io-util"] }
