[package]
name = "bakpiarun"
version = "0.1.0"
edition = "2021"
publish = false

[dependencies]
axum = "=0.7.9"
axum-server = { version = "=0.7.3", features = ["tls-rustls"] }
chrono = "=0.4.45"
clap = { version = "=4.6.7", features = ["derive"] }
futures-util = "=0.3.34"
multer = "=3.1.0"
mysql_async = { version = "=0.34.2", default-features = false, features = ["minimal"] }
serde = { version = "=1.0.229", features = ["derive"] }
serde_json = "=1.0.154"
serde_yaml = "=0.9.34"
tokio = { version = "=1.54.1", features = ["full"] }
tower-http = { version = "=0.5.2", features = ["compression-gzip"] }
urlencoding = "=2.1.3"
uuid = { version = "=1.29.0", features = ["v4"] }
