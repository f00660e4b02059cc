[package]
name = "npc_generator_core"
version = "0.1.0"
edition = "2021"
publish = false

[dependencies]
rand = "=0.8.8"
gluon = { version = "=0.18.4", features = ["serialization"] }
serde = { version = "=1.0.229", features = ["derive", "rc"] }
ron = "=0.12.2"
zip = { version = "=9.1.0", default-features = false, features = ["deflate"] }
clap = { version = "=4.6.7", default-features = false, features = ["derive", "std", "help", "usage", "error-context"] }
anyhow = "=1.0.104"
log = "=0.4.34"
pretty_env_logger = "=0.5.0"
dirs = "=7.0.0"
indicatif = { version = "=0.18.6", default-features = false }
eframe = { version = "0.27", default-features = false, features = ["glow"] }
egui = { version = "0.27", default-features = false }
