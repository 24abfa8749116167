[package]
name = "grsync"
version = "0.1.0"
edition = "2021"
publish = false

[dependencies]
argopt = "*"
log = "*"
reqwest = { version = "*", default-features = false, features = ["blocking", "json"] }
serde = { version = "1", features = ["derive"] }
simple_logger = "*"
