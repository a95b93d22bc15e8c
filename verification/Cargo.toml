[package]
name = "s3same"
version = "0.1.0"
edition = "2021"
publish = false

[dependencies]
crc64fast-nvme = "*"
aws-sdk-s3 = { version = "*", default-features = false }
s3uri = "*"
log = "*"
