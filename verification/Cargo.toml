[package]
name = "tome"
version = "0.1.0"
edition = "2021"
publish = false

[dependencies]
mime = "0.3"
serde = { version = "1", features = ["derive"] }
serde_json = "1"
ureq = { version = "2", features = ["native-tls"] }
native-tls = "0.2"
ureq_multipart = "1"
directories = "5"
anyhow = "1"
arboard = "3"
quit = "2"
