[package]
name = "psn_solver"
version = "0.1.0"
edition = "2021"
publish = false

[dependencies]
uuid = { version = "*", features = ["v4"] }
serde = { version = "*", features = ["derive"] }
serde_derive = "*"
serde_json = "*"
reqwest = { version = "*", default-features = false, features = ["json"] }
tokio = { version = "*", features = ["rt", "time", "macros"] }
headless_chrome = "*"
psn_api_rs = "*"
dotenv = "*"
