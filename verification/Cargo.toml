[package]
name = "dartrs"
version = "0.1.0"
edition = "2021"
publish = false

[dependencies]
anyhow = "=1.0.104"
candle-core = "=0.9.2"
candle-nn = "=0.9.2"
candle-transformers = "=0.9.2"
clap = { version = "=4.5.61", default-features = false, features = ["std", "derive", "help", "usage"] }
hf-hub = { version = "=0.4.3", default-features = false, features = ["ureq"] }
rand = "=0.8.8"
serde_json = "=1.0.145"
tokenizers = { version = "=0.21.4", default-features = false, features = ["onig"] }
