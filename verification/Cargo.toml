[package]
name = "blown-fuse"
version = "0.3.0"
edition = "2021"
publish = false

[dependencies]
bytes = "1"
log = "0.4"
nix = "0.23"
smallvec = "1"
thiserror = "1"
tokio = { version = "1", default-features = false, features = ["macros", "net", "rt", "sync"] }
