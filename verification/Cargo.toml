[package]
name = "lrzcc"
version = "0.1.0"
edition = "2021"
publish = false

[dependencies]
anyhow = "*"
avina-wire = "*"
chrono = { version = "*", features = ["serde"] }
clap = { version = "4", features = ["derive", "env"] }
colored = "*"
jzon = "*"
lrzcc-wire = "*"
reqwest = { version = "0.12", default-features = false, features = ["blocking"] }
serde = { version = "1", features = ["derive"] }
serde_json = "1"
serde_urlencoded = "*"
tabled = "*"
thiserror = "*"
