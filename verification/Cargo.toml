[package]
name = "playit_manager"
version = "0.1.0"
edition = "2021"
publish = false

[dependencies]
json = "*"
reqwest = { version = "*", default-features = false }
tokio = { version = "*", default-features = false, features = ["macros", "rt"] }
console = "*"
home = "*"
