[package]
name = "superflux_fetch"
version = "0.1.0"
edition = "2021"
publish = false

[dependencies]
reqwest = { version = "*", default-features = false, features = ["blocking"] }
url = "*"
serde = { version = "*", features = ["derive"] }
serde_json = "*"
base64 = "*"
open = "*"
sysinfo = "*"

[dev-dependencies]
mockito = "*"
