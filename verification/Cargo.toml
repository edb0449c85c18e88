[package]
name = "git_broom"
version = "0.1.0"
edition = "2021"
publish = false

[dependencies]
regex = "=1.13.1"
clap = { version = "=4.6.7", features = ["derive"] }
colored = "=3.1.1"
fluent = "=0.17.0"
fluent-langneg = "=0.13.1"
sys-locale = "=0.3.2"
unic-langid = { version = "=0.9.6", features = ["macros"] }
gix-config = "=0.54.0"
gix-hash = { version = "=0.23.0", features = ["sha1"] }
