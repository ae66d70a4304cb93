[package]
name = "scanit"
version = "0.1.0"
edition = "2021"
publish = false

[dependencies]
regex = "*"
ignore = "*"
fnmatch-regex2 = "*"
clap = { version = "*", features = ["derive"] }
clap_complete = "*"
memchr = "*"
thiserror = "*"
