[package]
name = "synodl"
version = "0.1.0"
edition = "2021"
publish = false

[dependencies]
byte-unit = "*"
crossterm = "0.25"
dirs = "*"
getopts = "*"
rustls-pemfile = "*"
serde = { version = "1", features = ["derive"] }
serde_ini = "*"
serde_json = "1"
subprocess = "*"
tui = "0.19"
ureq = "3"
url = "2"
