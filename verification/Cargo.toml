[package]
name = "test_with"
version = "0.1.0"
edition = "2021"
publish = false

[dependencies]
byte-unit = "5"
chrono = "0.4"
libtest-with = "0.8.1-14"
num_cpus = "1"
ping = "0.5"
proc-macro-error2 = "2"
proc-macro2 = "1"
quote = "1"
regex = "1"
reqwest = { version = "0.12", features = ["blocking"] }
syn = { version = "2", features = ["full"] }
sysinfo = "0.34"
uzers = "0.12"
which = "7"
