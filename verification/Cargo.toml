[package]
name = "idgenerator"
version = "0.1.0"
edition = "2021"
publish = false

[dependencies]
chrono = { version = "0.4", default-features = false, features = ["clock"] }
once_cell = "1"
parking_lot = "0.12"
thiserror = "1"
