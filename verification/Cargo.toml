[package]
name = "spacestate_bot"
version = "0.1.0"
edition = "2021"
publish = false

[dependencies]
serde_json = "*"
irc = { version = "*", default-features = false }
reqwest = { version = "*", default-features = false }
tokio = { version = "*", features = ["rt", "rt-multi-thread", "macros", "time"] }
futures = "*"
