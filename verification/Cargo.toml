[package]
name = "lan_server"
version = "0.1.0"
edition = "2021"
publish = false

[dependencies]
actix-web = { version = "4", default-features = false, features = ["macros", "cookies"] }
actix-files = "0.6"
tokio = { version = "1", features = ["fs"] }
dotenv = "0.15"
serde = { version = "1", features = ["derive"] }
