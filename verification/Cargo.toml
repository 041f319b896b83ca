[package]
name = "todo_tui"
version = "0.1.0"
edition = "2021"
publish = false

[dependencies]
clap = { version = "3.2", features = ["derive"] }
crossterm = "0.25"
md-5 = "0.10"
todo-core = "*"
tui = "0.19"
