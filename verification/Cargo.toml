[package]
name = "holepunch"
version = "0.1.0"
edition = "2021"
publish = false

[dependencies]
rcgen = { version = "=0.13.2", features = ["x509-parser"] }
kdl = "=4.7.1"
xdg = "=2.5.2"
time = "=0.3.55"
clap = { version = "=4.6.7", features = ["cargo"] }
log = "=0.4.34"
pretty_env_logger = "=0.5.0"

[dev-dependencies]
serde_bare = "=0.5.0"
