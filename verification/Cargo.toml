[package]
name = "hello_service"
version = "0.1.0"
edition = "2021"
publish = false

[dependencies]
actix-web = { version = "=4.18.1", default-features = false, features = ["macros"] }
form_urlencoded = "=1.2.2"

[dev-dependencies]
serde = "=1.0.229"
serde_json = "=1.0.154"
serde_urlencoded = "=0.7.1"
