[package]
name = "github_tui"
version = "0.1.0"
edition = "2021"
publish = false

[dependencies]
dotenv = "*"
inquire = "*"
thiserror = "*"
tokio = { version = "*", features = ["macros", "rt-multi-thread"] }
reqwest = { version = "*", default-features = false, features = ["json", "rustls-tls"] }
serde = { version = "*", features = ["derive"] }
