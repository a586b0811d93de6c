[package]
name = "kforge"
version = "1.0.0"
edition = "2021"
publish = false

[dependencies]
argparse = "*"
binwalk = "*"
log = "*"
pretty_env_logger = "*"
tabled = "*"
