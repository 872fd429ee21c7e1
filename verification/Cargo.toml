[package]
name = "idle_champions_codes"
version = "0.1.0"
edition = "2021"
publish = false

[dependencies]
time = "0.3"
rocket = { version = "0.5", features = ["json"] }
rocket_db_pools = { version = "0.2", features = ["sqlx_postgres"] }
serde = { version = "1", features = ["derive"] }
anyhow = "1"
