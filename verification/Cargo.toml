[package]
name = "clippy_core"
version = "0.1.0"
edition = "2021"
publish = false

[dependencies]
async-trait = "0.1"
enigo = "*"
sea-orm = { version = "1", default-features = false, features = ["macros"] }
sea-orm-migration = { version = "1", default-features = false }
serde = { version = "1", features = ["derive"] }
serde_json = "1"
tokio = { version = "1", features = ["time"] }
uuid = "1"
x11rb = "*"
