[package]
name = "ltc2983"
version = "0.1.0"
edition = "2021"
publish = false

[dependencies]
bytebuffer = "*"
embedded-hal = "1"
fixed = "1"
serde = { version = "1", features = ["derive"] }
thiserror = "1"
