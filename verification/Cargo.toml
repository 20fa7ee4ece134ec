[package]
name = "session_auth"
version = "0.1.0"
edition = "2021"
publish = false

[dependencies]
password-auth = "1"
chrono = "0.4"
uuid = { version = "1", features = ["v4", "serde"] }
serde = { version = "1", features = ["derive"] }
rmp-serde = "1"
time = "0.3"
tokio = { version = "1", features = ["rt-multi-thread", "macros", "net"] }
axum = "0.7"
axum-login = "0.15"
tower-sessions = "0.12"
async-trait = "0.1"
diesel = { version = "2", features = ["postgres", "r2d2", "chrono", "uuid"] }
askama = "0.12"
dotenv = "0.15"
log = "0.4"
tracing-subscriber = "0.3"
