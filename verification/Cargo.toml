[package]
name = "mdex_native"
version = "0.1.0"
edition = "2021"
publish = false

[dependencies]
comrak = "=0.59.0"
ammonia = "=4.2.4"
lol_html = "=3.0.3"
v_htmlescape = "=0.17.0"
lumis-core = "=6.0.0"
shlex = "=2.0.1"
rustler = "=0.39.0"
anyhow = "=1.0.104"
once_cell = "=1.21.4"
parking_lot = "=0.12.5"
typed-arena = "=2.0.2"
lumis-wasm-runtime = "*"
two-face = { version = "*", default-features = false, features = ["syntect-default-onig"] }
