[package]
name = "vapas_index"
version = "0.1.0"
edition = "2021"
publish = false

[dependencies]
actix-web = "*"
actix-files = "*"
diesel = { version = "*", features = ["postgres", "r2d2"] }
dotenv = "*"
serde = { version = "*", features = ["derive"] }
