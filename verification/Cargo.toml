[package]
name = "mysql_user_crud"
version = "0.1.0"
edition = "2021"
publish = false

[dependencies]
actix-cors = "0.7"
actix-utils = "3"
actix-web = { version = "4", default-features = false, features = ["macros"] }
base64 = "0.22"
bcrypt = "0.15"
chrono = { version = "0.4", features = ["serde"] }
futures-util = "0.3"
google-authenticator = "0.4"
image = { version = "0.25", default-features = false, features = ["png"] }
jsonwebtoken = "9"
log = "0.4"
qrcode = "0.14"
regex = "1"
sea-orm = { version = "1", default-features = false, features = ["macros", "with-chrono", "with-json"] }
serde = { version = "1", features = ["derive"] }
serde_json = "1"
serde_urlencoded = "0.7"
thiserror = "1"
tokio = { version = "1", default-features = false, features = ["sync", "macros", "rt-multi-thread"] }
url = "2"
utoipa = "4"
uuid = { version = "1", features = ["v4"] }
validator = { version = "0.18", features = ["derive"] }
