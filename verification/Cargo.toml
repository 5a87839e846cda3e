[package]
name = "show_me_the_loot_tables"
version = "0.1.0"
edition = "2021"
publish = false

[dependencies]
base64 = "0.13"
regex = "1"
reqwest = "0.11"
ron = "0.7"
serde = { version = "1", features = ["derive"] }
serde_json = "1"
tokio = { version = "1", features = ["macros", "rt-multi-thread"] }
