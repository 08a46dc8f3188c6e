[package]
name = "pektin_server"
version = "0.1.0"
edition = "2021"
publish = false

[dependencies]
data-encoding = "=2.11.1"
actix-web = "=4.15.0"
actix-cors = "=0.7.2"
tokio = { version = "=1.53.2", features = ["full"] }
deadpool-redis = "=0.23.1"
serde = { version = "=1.0.229", features = ["derive"] }
serde_json = "=1.0.151"
dotenv = "=0.15.0"
futures-util = "=0.3.34"
thiserror = "=2.0.21"
trust-dns-proto = { version = "=0.23.2", features = ["dnssec"] }
url = "=2.5.8"
