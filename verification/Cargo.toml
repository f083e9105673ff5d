[package]
name = "ephemeral_resource"
version = "0.1.0"
edition = "2021"
publish = false

[dependencies]
playwright-rs = "*"
tokio = { version = "1", features = ["macros", "rt-multi-thread", "time"] }
