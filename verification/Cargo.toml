[package]
name = "strim"
version = "0.1.0"
edition = "2021"
publish = false

[dependencies]
anyhow = "1"
bincode = "1"
clap = { version = "4", features = ["derive"] }
cpal = "0.15"
ctrlc = "3"
ringbuf = "0.4"
serde = { version = "1", features = ["derive"] }
