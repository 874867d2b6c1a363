[package]
name = "auth_service"
version = "0.1.0"
edition = "2021"
publish = false

[dependencies]
actix-web = "4"
diesel = { version = "2", features = ["postgres", "r2d2"] }
diesel_migrations = { version = "2", features = ["postgres"] }
dotenvy = "0.15"
r2d2 = "0.8"
serde = { version = "1", features = ["derive"] }
serde_json = "1"
slog = "2"
slog-term = "2"
slog-async = "2"
