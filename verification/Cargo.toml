[package]
name = "trayer"
version = "0.1.0"
edition = "2021"
publish = false

[dependencies]
image = "0.25"
iced = { version = "0.13", default-features = false, features = ["tokio"] }
ksni = "0.3"
tokio = { version = "1", features = ["rt-multi-thread"] }
