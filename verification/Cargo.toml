[package]
name = "wrac_plugin"
version = "0.1.0"
edition = "2021"
publish = false

[dependencies]
assert_no_alloc = "=1.1.2"
atomic_float = "=1.1.0"
clap = { version = "=4.6.7", features = ["derive"] }
clap-sys = "=0.5.0"
directories = "=6.0.0"
libloading = "=0.9.0"
log = "=0.4.35"
parking_lot = "=0.13.0"
raw-window-handle = "=0.6.2"
serde = { version = "=1.0.229", features = ["derive"] }
serde_json = "=1.0.154"
time = { version = "=0.3.55", features = ["formatting", "macros", "local-offset"] }
toml = "=1.1.8"
url = "=2.5.8"
zip = { version = "*", default-features = false, features = ["deflate"] }
