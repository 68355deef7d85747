[package]
name = "pokedex"
version = "0.1.0"
edition = "2021"
publish = false

[dependencies]
rusqlite = "0.26"
rouille = "3"
clap = "2"
serde = { version = "1", features = ["derive"] }
