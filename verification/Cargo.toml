[package]
name = "ems_backend"
version = "0.1.0"
edition = "2021"
publish = false

[dependencies]
uuid = { version = "=1.29.0", features = ["serde"] }
chrono = { version = "=0.4.45", default-features = false, features = ["clock", "std", "serde"] }
zip = { version = "=2.6.1", default-features = false }
serde = { version = "=1.0.229", features = ["derive"] }
sqlx = { version = "=0.8.6", default-features = false, features = ["postgres", "runtime-tokio", "uuid", "chrono", "macros"] }
async-trait = "=0.1.92"
futures = "=0.3.34"
cloud-storage = { version = "=0.11.1", default-features = false, features = ["rustls-tls"] }
