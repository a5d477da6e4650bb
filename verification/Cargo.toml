[package]
name = "neutron_host"
version = "0.1.0"
edition = "2021"
publish = false

[dependencies]
ring = "0.16"
rand = "0.7"
elf = "0.0"
ramhorns = "*"
serde = { version = "1", features = ["derive"] }
toml = "0.5"
