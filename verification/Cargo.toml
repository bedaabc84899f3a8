[package]
name = "gpgfs_rust"
version = "0.1.0"
edition = "2021"
publish = false

[dependencies]
nix = { version = "0.27", features = ["dir", "fs"] }
rustix = { version = "0.38", features = ["fs"] }
clap = { version = "4", features = ["derive"] }
env_logger = "0.11"
log = "0.4"
fuse_mt = "0.6"
gpgme = "0.11"

[dev-dependencies]
temp-dir = "0.1"
