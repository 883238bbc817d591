[package]
name = "reward_ledger"
version = "0.1.0"
edition = "2021"
publish = false

[dependencies]
serde_json = "1"
serde = { version = "1", features = ["derive"] }
chrono = "0.4"
dotenv = "0.15"
actix-web = { version = "4", default-features = false, features = ["macros"] }
actix-cors = "0.7"
reqwest = { version = "0.12", default-features = false, features = ["json"] }
sqlx = { version = "0.8", default-features = false, features = ["postgres", "runtime-tokio", "chrono"] }
