[package]
name = "rdsq"
version = "0.1.0"
edition = "2021"
publish = false

[dependencies]
aws-config = "*"
aws-sdk-rds = "*"
aws-sdk-rdsdata = "*"
aws-sdk-secretsmanager = "*"
aws-types = "*"
clap = { version = "*", features = ["derive", "env"] }
csv = "*"
exitfailure = "*"
futures = "*"
log = "*"
loggerv = "*"
serde = { version = "*", features = ["derive"] }
serde_json = "*"
snafu = "*"
tokio = { version = "*", features = ["macros", "rt-multi-thread"] }
