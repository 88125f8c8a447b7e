[package]
name = "multipart_form"
version = "0.1.0"
edition = "2021"
publish = false

[dependencies]
futures = "0.3"
mime = "0.3"
multer = "3"
once_cell = "1"
tokio = { version = "1", features = ["rt", "net", "time"] }
