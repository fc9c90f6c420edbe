[package]
name = "viska"
version = "0.1.0"
edition = "2021"
publish = false

[dependencies]
rsip = "0.4"
rsip-dns = { version = "0.1", features = ["trust-dns"] }
tokio = { version = "1", features = ["full"] }
diesel = { version = "1.4", features = ["postgres", "r2d2", "chrono", "network-address"] }
r2d2 = "0.8"
once_cell = "1"
chrono = "0.4"
uuid = { version = "0.8", features = ["v4"] }
ipnetwork = "0.17"
