[package]
name = "hanoi_scores"
version = "0.1.0"
edition = "2021"
publish = false

[dependencies]
actix-web = "=4.15.0"
chrono = "=0.4.45"
diesel = { version = "=2.3.14", features = ["postgres", "r2d2", "chrono"] }
dotenv = "=0.15.0"
env_logger = "=0.11.11"
serde = { version = "=1.0.229", features = ["derive"] }
