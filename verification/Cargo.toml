[package]
name = "roborex"
version = "0.1.0"
edition = "2021"
publish = false

[dependencies]
tiled = "=0.9.4"
quicksilver = { version = "=0.3.22", default-features = false, features = ["fonts", "sounds"] }
futures = "=0.1.31"
