[package]
name = "request_pipeline"
version = "0.1.0"
edition = "2021"
publish = false

[dependencies]
jsonwebtoken = "=9.3.1"
serde_json = "=1.0.154"
regex = "=1.13.1"
bcrypt = "=0.15.1"
serde = { version = "=1.0.229", features = ["derive"] }
actix-web = "=4.18.1"
actix-cors = "=0.7.2"
actix-web-validator = "=5.0.1"
validator = { version = "=0.16.1", features = ["derive"] }
log = "=0.4.34"
backtrace = "=0.3.76"
chrono = { version = "=0.4.45", features = ["serde"] }
uuid = { version = "=1.29.0", features = ["v4", "v7", "serde"] }
sea-orm = { version = "=1.1.20", default-features = false, features = ["macros", "with-chrono", "with-uuid"] }
sea-orm-migration = { version = "=1.1.20", default-features = false }
async-trait = "=0.1.92"
dotenv = "=0.15.0"
tracing = "=0.1.44"
tracing-subscriber = "=0.3.23"
