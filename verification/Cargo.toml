[package]
name = "threshold_ceremony"
version = "0.1.0"
edition = "2021"
publish = false

[dependencies]
schnorrkel = "=0.11.4"
scale-value = "=0.18.2"
serde_json = "=1.0.151"
hex = "=0.4.3"
clap = { version = "=4.6.7", default-features = false, features = ["derive", "std", "help", "usage", "error-context"] }
subxt = "=0.51.1"
