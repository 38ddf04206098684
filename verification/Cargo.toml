[package]
name = "person_rules"
version = "0.1.0"
edition = "2021"
publish = false

[dependencies]
actix-cors = "*"
actix-rt = "*"
actix-web = "*"
dotenv = "*"
env_logger = "*"
futures = "*"
mongodb = "*"
notify = "*"
quick-xml = { version = "*", features = ["serialize"] }
regex = "*"
serde = { version = "*", features = ["derive"] }
serde_json = "*"
