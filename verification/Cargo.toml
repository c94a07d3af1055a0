[package]
name = "gh_actions_rust"
version = "0.1.0"
edition = "2021"
publish = false

[dependencies]
serde_yaml = "=0.9.34"
mlua = { version = "=0.9.9", features = ["lua54", "module", "serialize"] }
serde = "=1.0.229"
