[package]
name = "rusty_dreams"
version = "0.1.0"
edition = "2021"
publish = false

[dependencies]
ascii_table = "4"
bincode = "1"
chrono = "0.4"
clap = { version = "4", features = ["derive"] }
crossterm = "*"
csv = "1"
names = { version = "*", default-features = false }
serde = { version = "1", features = ["derive"] }
thiserror = "1"
