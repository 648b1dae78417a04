[package]
name = "user_api"
version = "0.1.0"
edition = "2021"
publish = false

[dependencies]
actix-web = { version = "4.9", default-features = false, features = ["macros"] }
async-trait = "0.1"
chrono = { version = "0.4", features = ["serde"] }
dotenv = "0.15"
jsonwebtoken = "9"
log = "0.4"
sea-orm = { version = "1.0", default-features = false, features = ["macros", "with-chrono", "with-json", "sqlx-postgres", "runtime-actix-rustls"] }
sea-orm-migration = { version = "1.0", default-features = false, features = ["sqlx-postgres", "runtime-actix-rustls"] }
serde = { version = "1", features = ["derive"] }
serde_json = { version = "1", features = ["preserve_order"] }
