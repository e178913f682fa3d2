[package]
name = "citebot"
version = "0.1.0"
edition = "2021"
publish = false

[dependencies]
teloxide = { version = "=0.17.0", default-features = false, features = ["macros", "ctrlc_handler", "rustls"] }
dptree = "=0.5.1"
tokio = { version = "=1.53.2", features = ["macros", "rt-multi-thread"] }
takecell = "=0.1.1"
