[package]
name = "farm_monitor"
version = "0.1.0"
edition = "2021"
publish = false

[dependencies]
actix-cors = "0.7"
actix-session = { version = "0.10", features = ["cookie-session"] }
actix-web = { version = "4", default-features = false, features = ["cookies", "macros"] }
bcrypt = "0.15"
chrono = { version = "0.4", default-features = false, features = ["clock", "serde", "std"] }
sea-orm = { version = "1", default-features = false, features = ["macros", "runtime-tokio", "sqlx-postgres", "with-chrono"] }
serde = { version = "1", features = ["derive"] }
serde_json = "1"
