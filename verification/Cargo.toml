[package]
name = "todo_tui"
version = "0.1.0"
edition = "2021"
publish = false

[dependencies]
sqlx = { version = "*", default-features = false, features = ["sqlite", "runtime-tokio"] }
termion = "*"
tokio = { version = "*", features = ["rt-multi-thread", "macros", "time"] }
