[package]
name = "account_service"
version = "0.1.0"
edition = "2021"
publish = false

[dependencies]
bcrypt = "*"
chrono = "0.4"
diesel = { version = "2", features = ["postgres", "uuid", "chrono"] }
uuid = "1"

[dev-dependencies]
regex = "1"
