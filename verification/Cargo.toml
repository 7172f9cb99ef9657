[package]
name = "gatekeeper"
version = "0.1.0"
edition = "2021"
publish = false

[dependencies]
async-trait = "=0.1.92"
chrono = "=0.4.45"
dotenv = "=0.15.0"
frankenstein = { version = "=0.52.1", features = ["client-reqwest"] }
sqlx = { version = "=0.9.0", features = ["postgres", "runtime-tokio"] }
sysfs_gpio = "=0.6.2"
time = "=0.3.55"
tokio = { version = "=1.53.2", features = ["full"] }
tracing = "=0.1.44"
tracing-appender = "=0.2.5"
tracing-subscriber = { version = "=0.3.23", features = ["env-filter", "time"] }
