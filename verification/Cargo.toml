[package]
name = "dev_caloptreyx_subdomains"
version = "0.1.0"
edition = "2021"
publish = false

[dependencies]
anyhow = "1"
async-trait = "0.1"
axum = "0.8"
chrono = { version = "0.4", features = ["serde"] }
compact_str = "0.9"
garde = { version = "0.22", features = ["derive"] }
indexmap = "2"
regex = "1"
reqwest = { version = "0.12", default-features = false, features = ["json", "rustls-tls"] }
serde = { version = "1", features = ["derive"] }
serde_json = "1"
sqlx = { version = "0.8", default-features = false, features = ["postgres", "json", "chrono", "uuid", "ipnetwork", "runtime-tokio", "macros"] }
tracing = "0.1"
url = "2"
utoipa = { version = "5", features = ["uuid", "chrono"] }
utoipa-axum = "0.2"
uuid = { version = "1", features = ["serde", "v4"] }
