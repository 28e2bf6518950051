[package]
name = "gloss_word"
version = "0.1.0"
edition = "2021"
publish = false

[dependencies]
anyhow = "=1.0.104"
clap = "=4.6.7"
directories = "=6.0.0"
indicatif = "=0.18.6"
regex = "=1.13.1"
reqwest = { version = "=0.13.5", features = ["blocking"] }
rusqlite = { version = "=0.40.2", features = ["bundled"] }
scraper = "=0.29.0"
tempfile = "=3.27.0"
trash = "=5.2.9"
