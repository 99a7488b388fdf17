[package]
name = "gam_client"
version = "0.1.0"
edition = "2021"
publish = false

[dependencies]
rand = "0.9"
serde = { version = "1", features = ["derive"] }
serde_json = "1"
directories = "*"
thiserror = "*"
clap = { version = "4", features = ["derive"] }
tracing = "0.1"
smallvec = "1"
itertools = "*"
