[package]
name = "dbusgraft"
version = "0.1.0"
edition = "2021"
publish = false

[dependencies]
aargvark = "*"
futures = "0.3"
loga = "*"
moka = { version = "0.12", features = ["sync"] }
tokio = { version = "1", features = ["rt", "macros"] }
tokio-util = "0.7"
zbus = { version = "5", default-features = false, features = ["tokio"] }
