[package]
name = "supershuckie"
version = "0.1.0"
edition = "2021"
publish = false

[dependencies]
tinyvec = { version = "=1.13.3", features = ["alloc"] }
serde = { version = "=1.0.229", features = ["derive"] }
rouille = "=3.6.2"
num_enum = "=0.7.6"
