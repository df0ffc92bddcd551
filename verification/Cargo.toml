[package]
name = "cargo-linkargs"
version = "0.2.0"
edition = "2021"
rust-version = "1.95"
publish = false

[dependencies]
cargo = "=0.96.0"
# `ProcessBuilder`, the command that cargo hands to an executor, lives here.
cargo-util = "=0.2.28"
docopt = "=1.1.1"
# Dependencies of cargo that nothing here names. They are held at the versions
# that cargo 0.96.0 was released with: their later releases ask for a newer
# compiler than `rust-version`.
cargo-credential-libsecret = "=0.5.6"
cargo-credential-macos-keychain = "=0.4.21"
cargo-credential-wincred = "=0.4.21"
kstring = "=2.0.2"
