[package]
name = "judge_a_book"
version = "0.1.0"
edition = "2021"
publish = false

[dependencies]
reqwest = { version = "*", default-features = false, features = ["blocking"] }
rayon = "*"
serde_json = "*"
clap = { version = "*", features = ["derive", "env"] }
