[package]
name = "scriptrun"
version = "0.1.0"
edition = "2021"
publish = false

[dependencies]
anyhow = "=1.0.104"
powershell_script = "=1.1.0"
run_script = "=0.11.2"
serde = { version = "=1.0.229", features = ["derive"] }
which = "*"
