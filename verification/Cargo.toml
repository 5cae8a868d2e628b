[package]
name = "chronograph"
version = "0.1.0"
edition = "2021"
publish = false

[dependencies]
zwohash = "0.1"
scc = "2"
rkyv = "0.8"
quote = "1"
syn = { version = "2", features = ["full"] }
proc-macro2 = "1"
