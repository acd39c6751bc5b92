[package]
name = "rus_core"
version = "0.1.0"
edition = "2021"
publish = false

[dependencies]
chrono = { version = "=0.4.45", features = ["serde"] }
rand = "=0.8.8"
url = "=2.5.8"
redis = "=0.22.4"
sea-orm = { version = "=0.10.7", default-features = false, features = ["macros", "with-chrono", "sqlx-postgres", "runtime-actix-rustls"] }
sea-orm-migration = { version = "=0.10.7", default-features = false, features = ["sqlx-postgres", "runtime-actix-rustls"] }
actix-web = "=4.18.1"
actix-files = "=0.6.10"
actix-http = "=3.19.0"
actix-rt = "=2.15.0"
async-trait = "=0.1.92"
derive_more = "=0.99.20"
dotenvy = "=0.15.7"
listenfd = "=1.0.2"
log = "=0.4.34"
serde = { version = "=1.0.229", features = ["derive"] }
tera = "=1.20.1"
tokio_schedule = "=0.3.2"
tracing-subscriber = "=0.3.23"
