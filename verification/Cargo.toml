[package]
name = "faucet"
version = "0.1.0"
edition = "2021"
publish = false

[dependencies]
miden-objects = { version = "=0.3.1" }
miden-client = { version = "=0.3.1" }
actix-web = { version = "=4.18.1", default-features = false, features = ["macros"] }
serde = { version = "=1.0.229", features = ["derive"] }
tracing = { version = "=0.1.44" }

[dev-dependencies]
miden-objects = { version = "=0.3.1", features = ["testing"] }
