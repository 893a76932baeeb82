[package]
name = "weathr"
version = "0.1.0"
edition = "2021"
publish = false

[dependencies]
chrono = "0.4"
clap = "3"
colored = "2"
dotenv = "0.15"
serde = { version = "1", features = ["derive"] }
serde_json = "1"
tabular = "0.2"
thiserror = "1"
ureq = "2"
url = "2"
