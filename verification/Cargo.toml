[package]
name = "noir_bench"
version = "0.1.0"
edition = "2021"
publish = false

[dependencies]
time = { version = "*", features = ["formatting"] }
sysinfo = "*"
sha256 = "*"
shlex = "*"
serde = { version = "*", features = ["derive"] }
serde_json = "*"
serde_yaml = "*"
toml = "*"
clap = { version = "*", features = ["derive"] }
tempfile = "*"

[dev-dependencies]
