[package]
name = "ovwigho"
version = "0.1.0"
edition = "2021"
publish = false

[dependencies]
anchor-lang = { version = "=1.2.1", features = ["init-if-needed"] }
anchor-spl = { version = "=1.2.1", default-features = false, features = ["solana-v3", "associated_token"] }
mpl-account-compression = { version = "=2.0.0", default-features = false, features = ["no-entrypoint"] }
mpl-bubblegum = "=4.0.0"
mpl-core = "=0.12.1"
mpl-noop = { version = "=2.0.0", default-features = false, features = ["no-entrypoint"] }
