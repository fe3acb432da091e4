[package]
name = "devstack"
version = "0.1.0"
edition = "2021"
publish = false

[dependencies]
bcrypt = "*"
mysql = "*"
reqwest = { version = "*", default-features = false, features = ["blocking", "rustls-tls"] }
serde = { version = "*", features = ["derive"] }
thiserror = "*"
dotenv = "*"
anyhow = "*"
