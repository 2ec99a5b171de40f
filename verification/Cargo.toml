[package]
name = "rgl"
version = "0.1.0"
edition = "2021"
publish = false

[dependencies]
anyhow = "1"
async-recursion = "1"
clap = { version = "4", features = ["derive", "cargo"] }
dashmap = "*"
dotenvy = "*"
dunce = "1"
enum_dispatch = "*"
fslock = "*"
indexmap = { version = "2", features = ["serde"] }
md5 = "*"
once_cell = "1"
oxide_eval = "*"
rayon = "1"
serde = { version = "1", features = ["derive"] }
serde_json = { version = "1", features = ["preserve_order"] }
smol = "*"
strum = { version = "*", features = ["derive"] }
url = "2"
walkdir = "2"
