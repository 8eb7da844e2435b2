[package]
name = "soundtime"
version = "0.1.0"
edition = "2021"
publish = false

[dependencies]
url = "=2.5.8"
semver = "=1.0.28"
regex = "=1.13.1"
md5 = "=0.7.0"
aes-gcm = "=0.10.3"
hkdf = "=0.12.4"
sha2 = "=0.10.9"
base64 = "=0.22.1"
rand = "=0.9.5"
uuid = "=1.29.0"
wasmparser = "=0.263.0"
toml = "=0.8.23"
serde = { version = "=1.0.229", features = ["derive"] }
serde_json = "=1.0.154"
chrono = "=0.4.45"
urlencoding = "=2.1.3"
tempfile = "=3.27.0"
git2 = { version = "=0.21.0", default-features = false }
extism = { version = "=1.30.0", default-features = false, features = ["wasmtime-default-features"] }

[dev-dependencies]
toml = "=0.8.23"
serde_json = "=1.0.154"
