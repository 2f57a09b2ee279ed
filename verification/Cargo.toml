[package]
name = "playmaster"
version = "0.1.0"
edition = "2021"
publish = false

[dependencies]
regex = "=1.13.1"
semver = "=1.0.28"
base64 = "=0.22.1"
quoted_printable = "=0.5.2"
chrono = "=0.4.45"
shlex = "=1.3.0"
mailparse = "=0.18.0"
serde = { version = "=1.0.229", features = ["derive"] }
serde_yaml = "=0.9.34"
serde_json = "=1.0.154"
clap = { version = "=4.6.7", features = ["derive"] }
signal-hook = "=0.3.18"
ssh2 = "=0.9.6"
terminal_size = "=0.4.4"
rand = "=0.9.5"
tempfile = "=3.27.0"
dirs = "=7.0.0"
tracing = "=0.1.44"
tracing-subscriber = { version = "=0.3.23", features = ["env-filter"] }
indicatif = "=0.18.6"
inquire = "=0.9.4"
imap = "=2.4.1"
native-tls = "=0.2.18"
prctl = "=1.0.0"
reqwest = { version = "=0.12.28", default-features = false, features = ["blocking", "json", "default-tls"] }
schemars = "*"
