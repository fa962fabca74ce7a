[package]
name = "cloud_waiter"
version = "0.1.0"
edition = "2021"
publish = false

[dependencies]
rand = "=0.8.8"
serde_json = "=1.0.154"
structopt = "=0.3.26"
tokio = { version = "=1.54.1", features = ["macros", "rt-multi-thread", "time"] }
aws-credential-types = "=1.3.1"
aws-sdk-dynamodb = "=1.131.0"
aws-sdk-sts = "=1.119.0"
aws-sdk-kms = "1"
aws-sdk-rekognition = "1"
aws-sdk-s3 = "1"
base64 = "0.13"
kamadak-exif = "*"
