[package]
name = "replaylist"
version = "0.1.0"
edition = "2021"
publish = false

[dependencies]
serde_json = "1"
serde = { version = "1", features = ["derive"] }
anyhow = "1"
base64 = "0.22"
dotenv = "0.15"
jsonwebtoken = "9"
urlencoding = "2"
reqwest = { version = "0.12", default-features = false, features = ["json"] }
actix-web = { version = "4", default-features = false, features = ["macros", "cookies"] }
actix-files = "0.6"
actix-session = { version = "0.10", features = ["cookie-session"] }
