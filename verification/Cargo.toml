[package]
name = "blackwell"
version = "0.1.0"
edition = "2021"
publish = false

[dependencies]
chrono = "0.4"
dotenv = "0.15"
futures = "0.3"
lettre = { version = "0.11", default-features = false, features = ["builder", "smtp-transport", "rustls-tls", "hostname"] }
mongodb = "2"
rand = "0.8"
regex = "1"
rocket = { version = "0.5", features = ["json"] }
rocket-governor = "=0.2.0-rc.4"
serde = { version = "1", features = ["derive"] }
tokio = { version = "1", features = ["time"] }
uuid = { version = "1", features = ["v4"] }
