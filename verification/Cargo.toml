[package]
name = "bookstore"
version = "0.1.0"
edition = "2021"
publish = false

[dependencies]
base64 = "0.13"
bcrypt = "*"
chrono = "0.4"
poloto = "*"
postgres = { version = "0.19", features = ["with-chrono-0_4"] }
rand = "0.8"
rand_chacha = "0.3"
rocket = { version = "0.5", features = ["json", "secrets"] }
rocket_dyn_templates = { version = "0.1", features = ["tera"] }
rocket_sync_db_pools = { version = "0.1", features = ["postgres_pool"] }
rust_decimal = { version = "1", features = ["db-postgres"] }
serde = { version = "1", features = ["derive"] }
strsim = "0.10"
thiserror = "1"
