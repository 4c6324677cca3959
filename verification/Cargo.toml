[package]
name = "luabutt"
version = "0.1.0"
edition = "2021"
publish = false

[dependencies]
buttplug = { version = "7", default-features = false, features = ["client", "websockets", "serialize-json", "tokio-runtime"] }
futures = "0.3"
mlua = { version = "0.10", features = ["lua54", "module"] }
tokio = { version = "1", features = ["full"] }
