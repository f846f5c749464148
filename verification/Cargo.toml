[package]
name = "recipe_api"
version = "0.1.0"
edition = "2021"
publish = false

[dependencies]
mongodb = { version = "2", features = ["tokio-sync"] }
bson = "2"
image = { version = "0.24", default-features = false, features = ["jpeg", "png", "gif"] }
rocket = { version = "0.5", features = ["json"] }
rocket_okapi = { version = "0.8", features = ["swagger"] }
schemars = "0.8"
serde = { version = "1", features = ["derive"] }
strum = "0.26"
strum_macros = "0.26"
tokio = { version = "1", features = ["fs", "io-util"] }
futures = "0.3"
dotenv = "0.15"
