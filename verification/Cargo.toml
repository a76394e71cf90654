[package]
name = "dcollector"
version = "0.1.0"
edition = "2021"
publish = false

[dependencies]
chrono = "0.4"
diesel = { version = "2", default-features = false, features = ["postgres"] }
dotenv = "0.15"
nut-client = "*"
serde = { version = "1", features = ["derive"] }
serde_json = "1"
sysinfo = "*"
tracing = "0.1"
tracing-subscriber = { version = "0.3", features = ["env-filter"] }
