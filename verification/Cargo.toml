[package]
name = "netstack_gmp"
version = "0.1.0"
edition = "2021"
publish = false

[dependencies]
rand = "=0.8.8"
rand_xorshift = "=0.3.0"
thiserror = "=1.0.69"
log = "=0.4.34"
