[package]
name = "schema_cli"
version = "0.1.0"
edition = "2021"
publish = false

[dependencies]
clap = { version = "3.2", features = ["derive"] }
dotenv = "0.15"
owo-colors = "3"
tokio = { version = "1", features = ["macros", "rt-multi-thread"] }
zenode = "*"
