[package]
name = "pointers_threads"
version = "0.1.0"
edition = "2021"
publish = false

[dependencies]
paste = "1"
rayon = "1"
tokio = { version = "1", features = ["rt-multi-thread", "time", "macros"] }
trpl = "*"
