[package]
name = "autumn"
version = "0.1.0"
edition = "2021"
publish = false

[dependencies]
image = { version = "0.24", default-features = false, features = ["png", "jpeg", "gif", "webp"] }
webp = "0.2"
imagesize = "*"
kamadak-exif = "*"
tree_magic = "*"
content_inspector = "*"
nanoid = "*"
ulid = "*"
actix-web = "4"
actix-multipart = "*"
actix-cors = "*"
mongodb = "*"
tokio = { version = "1", features = ["full"] }
futures = "*"
serde = { version = "1", features = ["derive"] }
serde_json = "1"
toml = "0.5"
once_cell = "*"
lazy_static = "*"
dotenv = "*"
log = "*"
mime = "*"
tempfile = "*"
ffprobe = "*"
