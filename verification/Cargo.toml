[package]
name = "hddwarn"
version = "0.1.0"
edition = "2021"
publish = false

[dependencies]
hostname = "0.4"
lettre = "0.11"
serde = { version = "1", features = ["derive"] }
serde_json = "1"
sysinfo = "0.29"
