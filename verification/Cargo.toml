[package]
name = "globevpn"
version = "0.1.0"
edition = "2021"
publish = false

[dependencies]
aws-config = "0.51"
aws-sdk-ec2 = "0.21"
clap = { version = "4", features = ["derive"] }
dirs = "4"
tokio = { version = "1", features = ["full"] }
uuid = { version = "1", features = ["v4"] }
