[package]
name = "stern"
version = "0.1.0"
edition = "2021"
publish = false

[dependencies]
syn = { version = "=2.0.119", features = ["full", "extra-traits"] }
quote = "=1.0.47"
proc-macro2 = "=1.0.107"
unicode-ident = "=1.0.27"
tokio = { version = "=1.54.1", features = ["rt", "rt-multi-thread", "sync", "macros"] }
tokio-util = "=0.7.20"
futures-util = "=0.3.34"
thiserror = "=2.0.21"
derive_more = { version = "=2.1.1", features = ["debug"] }
parking_lot = "=0.12.5"
strum = { version = "=0.27.2", features = ["derive"] }
slint = { version = "=1.18.1", default-features = false, features = ["compat-1-2", "std"] }
