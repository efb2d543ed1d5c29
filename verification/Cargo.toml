[package]
name = "contexture_core"
version = "0.1.0"
edition = "2021"
publish = false

[dependencies]
crc32fast = "*"
md-5 = "*"
sha2 = "*"
symphonia = "*"
parking_lot = "*"
thiserror = "*"
serde = { version = "*", features = ["derive"] }

[dev-dependencies]
hound = "*"
tempfile = "*"
