[package]
name = "gpm"
version = "0.1.0"
edition = "2021"
publish = false

[dependencies]
git2 = { version = "=0.21.0", features = ["https", "ssh"] }
structopt = "=0.3.26"
indicatif = "=0.18.6"
console = "=0.16.6"
quicli = "=0.4.0"
human-panic = "=2.0.8"

[dev-dependencies]
tempfile = "=3.27.0"
