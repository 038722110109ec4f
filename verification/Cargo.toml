[package]
name = "pow20_miner"
version = "0.1.0"
edition = "2021"
publish = false

[dependencies]
anyhow = "*"
bitcoin = "*"
clap = { version = "*", features = ["derive"] }
num_cpus = "*"
rand = "*"
rayon = "*"
reqwest = { version = "*", default-features = false, features = ["json"] }
serde = { version = "*", features = ["derive"] }
serde_json = "*"
tokio = { version = "*", features = ["macros", "rt-multi-thread", "sync", "time"] }

[dev-dependencies]
hex = "*"
