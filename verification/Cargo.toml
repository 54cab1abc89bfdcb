[package]
name = "sshbind"
version = "0.1.1"
edition = "2021"
publish = false

[dependencies]
libreauth = "*"
ssh2-config = "*"
ssh2 = "0.9"
async-ssh2-lite = { version = "0.5", features = ["async-io"] }
async-io = "2"
async-executor = "1"
async-channel = "2"
easy-parallel = "3"
futures = "0.3"
polling = "3"
slab = "0.4"
interprocess = "2"
named-sem = "*"
serde = { version = "1", features = ["derive"] }
serde_json = "1"
serde_yml = "*"
log = "0.4"
env_logger = "*"
clap = { version = "4", features = ["derive"] }
dirs = "*"
lazy_static = "1"
