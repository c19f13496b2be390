[package]
name = "svc_gis"
version = "0.1.0"
edition = "2021"
publish = false

[dependencies]
chrono = "0.4"
uuid = { version = "1", features = ["v4"] }
postgis = "0.9"
postgres-types = { version = "0.2", features = ["derive", "with-chrono-0_4"] }
tokio-postgres = { version = "0.7", features = ["with-chrono-0_4"] }
deadpool-postgres = "*"
futures = "0.3"
tonic = "*"
