[package]
name = "modql"
version = "0.1.0"
edition = "2021"
publish = false

[dependencies]
chrono = { version = "0.4", default-features = false, features = ["std", "clock"] }
data-encoding = "2"
prost = "*"
prost-types = "*"
sea-query = { version = "*", features = ["with-chrono", "with-uuid", "backend-postgres"] }
serde = "1"
serde_json = "1"
uuid = "1"
