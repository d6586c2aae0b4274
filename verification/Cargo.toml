[package]
name = "recibo"
version = "0.1.0"
edition = "2021"
publish = false

[dependencies]
barcoders = "*"
byteorder = "1"
encoding = "0.2"
image = { version = "0.24", default-features = false, features = ["png"] }
log = "0.4"
serde = { version = "1", features = ["derive"] }
