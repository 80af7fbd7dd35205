[package]
name = "aleo_client"
version = "0.1.0"
edition = "2021"
publish = false

[dependencies]
once_cell = "=1.21.4"
serde = { version = "=1.0.229", features = ["derive"] }
snarkvm = "=0.16.19"
