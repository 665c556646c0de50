[package]
name = "ago_recipe_manager"
version = "0.1.0"
edition = "2021"
publish = false

[dependencies]
log = "0.4"
reqwest = { version = "0.12", default-features = false, features = ["cookies"] }
serde = { version = "1", features = ["derive"] }
serde_json = "1"
