[package]
name = "chat_bridge"
version = "0.1.0"
edition = "2021"
publish = false

[dependencies]
tokio = { version = "1", features = ["sync", "net", "io-util", "io-std", "rt-multi-thread", "macros", "time"] }
tokio-util = { version = "0.7", features = ["codec"] }
tokio-stream = "0.1"
irc-proto = "*"
rand = "0.8"
memorable-wordlist = "*"
log = "0.4"
env_logger = "*"
parking_lot = "0.12"
