[package]
name = "geoip_rs"
version = "0.1.0"
edition = "2021"
publish = false

[dependencies]
serde_json = "*"
serde = { version = "*", features = ["derive"] }
maxminddb = "*"
actix-web = "*"
actix-cors = "*"
actix-rt = "*"
dotenv = "*"
