[package]
name = "libaflstar"
version = "0.1.0"
edition = "2021"
publish = false

[dependencies]
libafl = { version = "=0.12.0", default-features = false, features = ["std", "derive", "prelude", "fork", "serdeany_autoreg"] }
libafl_bolts = { version = "=0.12.0", default-features = false, features = ["std", "derive", "prelude", "alloc", "serdeany_autoreg"] }
nix = { version = "=0.27.1", features = ["signal", "process"] }
serde = { version = "1", features = ["derive"] }
ciborium = "=0.2.2"
clap = { version = "4", features = ["derive"] }
env_logger = "0.11"
log = "0.4"
signal-hook = "0.3"
