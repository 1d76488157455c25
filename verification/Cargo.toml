[package]
name = "dooly"
version = "0.1.0"
edition = "2021"
publish = false

[dependencies]
chrono = { version = "0.4", features = ["serde"] }
diesel = { version = "2", features = ["sqlite", "r2d2", "chrono"] }
dotenv = "0.15"
env_logger = "0.11"
libsqlite3-sys = { version = "*", features = ["bundled"] }
log = "0.4"
serde = { version = "1", features = ["derive"] }
