[package]
name = "volume_controller"
version = "0.1.0"
edition = "2021"
publish = false

[dependencies]
actix-cors = "*"
actix-files = "*"
actix-web = "4"
colored = "*"
local-ip-address = "*"
serde = { version = "1", features = ["derive"] }
winmix = "*"
