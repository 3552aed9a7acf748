[package]
name = "code_pal"
version = "0.1.0"
edition = "2021"
publish = false

[dependencies]
uuid = { version = "*", features = ["v4"] }
clipboard = "*"
crossterm = "*"
tui = "*"
dirs = "*"
serde = { version = "*", features = ["derive"] }
serde_json = "*"
structopt = "*"
stderrlog = "*"
failure = "*"
