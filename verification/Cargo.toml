[package]
name = "simpl_actor"
version = "0.1.0"
edition = "2021"
publish = false

[dependencies]
tokio = { version = "1", features = ["sync", "rt", "rt-multi-thread", "macros", "time"] }
futures = "0.3"
tracing = "0.1"
num_cpus = "1"
dyn-clone = "1"
heck = "0.5"
syn = { version = "2", features = ["full"] }
quote = "1"
proc-macro2 = "1"
