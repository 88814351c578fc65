[package]
name = "safe_auth_cli"
version = "0.1.0"
edition = "2021"
publish = false

[dependencies]
serde = { version = "1", features = ["derive"] }
serde_json = "1"
prettytable-rs = "0.10"
envy = "0.4"
rpassword = "7"
structopt = "0.3"
