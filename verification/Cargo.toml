[package]
name = "pomodoro"
version = "0.1.0"
edition = "2021"
publish = false

[dependencies]
iced = { version = "=0.10.0", default-features = false, features = ["tokio"] }
tokio = { version = "1", features = ["macros", "rt-multi-thread"] }
