[package]
name = "backend_support"
version = "0.1.0"
edition = "2021"
publish = false

[dependencies]
mysql = "=28.0.3"
mysql_common = { version = "=0.37.3", features = ["chrono"] }
chrono = "=0.4.45"
dotenv = "=0.15.0"
uiuifree-elastic = "=0.2.33"
actix-web = { version = "=4.15.0", default-features = false }
serde = { version = "=1.0.229", features = ["derive"] }
serde_json = "=1.0.151"
