[package]
name = "mc-components"
version = "0.1.0"
edition = "2021"
publish = false

[dependencies]
serde = { version = "1", features = ["derive"] }
hex = "=0.4.3"
prost = "*"
rand_core = "0.6"
diesel = { version = "=1.4.8", features = ["sqlite"] }
