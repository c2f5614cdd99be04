[package]
name = "file_host"
version = "0.1.0"
edition = "2021"
publish = false

[dependencies]
actix-files = "0.6"
actix-multipart = { version = "0.7", default-features = false }
actix-web = { version = "4", default-features = false, features = ["macros"] }
dotenv = "0.15"
futures-util = "0.3"
mime_guess = "2"
serde_json = "1"
uuid = { version = "1", features = ["v4"] }
