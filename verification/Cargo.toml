[package]
name = "erract"
version = "0.1.0"
edition = "2021"
publish = false

[dependencies]
exn = "*"
smallvec = "1"
serde = { version = "1", features = ["derive"] }
