[package]
name = "rcm"
version = "0.1.0"
edition = "2021"
publish = false

[dependencies]
clap = { version = "=4.6.7", features = ["derive"] }
directories = "=6.0.0"
gix = { version = "=0.90.0", default-features = false, features = ["blocking-network-client", "worktree-mutation", "interrupt", "sha1"] }
snafu = "=0.9.2"
