[package]
name = "actix_session_security"
version = "0.1.0"
edition = "2021"
publish = false

[dependencies]
actix-web = { version = "4", default-features = false, features = ["cookies"] }
async-trait = "0.1"
futures = "0.3"
