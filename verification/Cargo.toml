[package]
name = "nqrust-hvcollector"
version = "0.1.0"
edition = "2021"
publish = false

[dependencies]
color-eyre = "*"
flate2 = "*"
ratatui = "*"
tokio = { version = "*", features = ["macros", "rt-multi-thread"] }
