[package]
name = "clipsync"
version = "0.1.0"
edition = "2021"
publish = false

[dependencies]
anyhow = "1"
leptos = "0.8"
proc-macro2 = "1"
quote = "1"
syn = { version = "2.0.119", features = ["full"] }
