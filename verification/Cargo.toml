[package]
name = "cdk_ffi"
version = "0.1.0"
edition = "2021"
publish = false

[dependencies]
bip39 = { version = "=3.0.0", features = ["rand"] }
cdk = { version = "=0.18.1", default-features = false, features = ["wallet"] }
cdk-common = { version = "=0.18.1", default-features = false, features = ["wallet"] }
cdk-sqlite = { version = "=0.18.1", default-features = false, features = ["wallet"] }
tokio = { version = "=1.53.2", features = ["rt-multi-thread"] }
uuid = { version = "=1.27.0", features = ["v4"] }
