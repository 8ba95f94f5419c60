[package]
name = "cargo_cmd"
version = "0.1.0"
edition = "2021"
publish = false

[dependencies]
cargo = "=0.96.0"
cargo-credential-libsecret = "=0.5.6"
cargo-credential-macos-keychain = "=0.4.21"
cargo-credential-wincred = "=0.4.21"
cargo-util = "=0.2.28"
kstring = "=2.0.0"

[dev-dependencies]
docopt = "=1.1.1"
