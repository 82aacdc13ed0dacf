[package]
name = "apollo"
version = "0.1.0"
edition = "2021"
publish = false

[dependencies]
rocket = { version = "0.5", features = ["json"] }
rocket_db_pools = { version = "0.2", features = ["sqlx_postgres"] }
sqlx = { version = "0.7", default-features = false, features = ["json", "postgres"] }
figment = { version = "0.10", features = ["env"] }
chrono = { version = "0.4", default-features = false, features = ["clock", "std"] }
aws-config = { version = "1", default-features = false, features = ["rt-tokio", "default-https-client"] }
aws-sdk-s3 = { version = "1", default-features = false, features = ["rt-tokio", "default-https-client"] }
