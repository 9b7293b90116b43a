[package]
name = "order_events"
version = "0.1.0"
edition = "2021"
publish = false

[dependencies]
bson = "2"
serde = { version = "1", features = ["derive"] }
axum = { version = "0.6", features = ["macros"] }
mongodb = "2"
reqwest = { version = "0.11", default-features = false, features = ["json"] }
async-graphql = { version = "7", default-features = false }
futures = "0.3"
log = "0.4"
