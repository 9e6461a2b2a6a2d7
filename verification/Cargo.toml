[package]
name = "spr"
version = "0.1.0"
edition = "2021"
publish = false

[dependencies]
console = "*"
futures = "*"
graphql_client = "*"
reqwest = { version = "*", default-features = false, features = ["json"] }
serde = { version = "*", features = ["derive"] }
