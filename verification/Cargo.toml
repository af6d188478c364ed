[package]
name = "cup_qr"
version = "0.1.0"
edition = "2021"
publish = false

[dependencies]
qrcode = { version = "=0.14.1", default-features = false, features = ["svg"] }
quircs = "=0.10.3"
image = { version = "=0.25.10", default-features = false, features = ["png", "jpeg"] }
cot = { version = "=0.7.0", features = ["openapi", "swagger-ui", "live-reload"] }
askama = "=0.16.1"
async-trait = "=0.1.92"
schemars = "=1.2.3"
serde = { version = "=1.0.229", features = ["derive"] }

[dev-dependencies]
resvg = "=0.49.0"
