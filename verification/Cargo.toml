[package]
name = "new_project"
version = "0.1.0"
edition = "2021"
publish = false

[dependencies]
anyhow = "*"
chrono = "*"
clap = { version = "*", features = ["derive"] }
git2 = { version = "*", default-features = false }
indexmap = { version = "*", features = ["serde"] }
minijinja = "*"
serde = { version = "*", features = ["derive"] }
serde_yml = "*"
