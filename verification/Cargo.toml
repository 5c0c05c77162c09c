[package]
name = "hnstar"
version = "0.1.0"
edition = "2021"
publish = false

[dependencies]
base64 = "0.13"
ring = "0.17"
chrono = "0.4"
htmlescape = "0.3"
argonautica = "0.2"
serde = { version = "1", features = ["derive"] }
serde_json = "1"
actix-web = { version = "4", default-features = false, features = ["macros", "openssl"] }
actix-files = "0.6"
tokio = { version = "1", features = ["macros", "rt-multi-thread"] }
tokio-postgres = "0.7"
deadpool = "*"
deadpool-postgres = "*"
postgres-types = "0.2"
r2d2 = "0.8"
r2d2_postgres = "*"
reqwest = { version = "0.12", default-features = false, features = ["json", "native-tls"] }
openssl = "0.10"
