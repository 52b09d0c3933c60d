[package]
name = "cognito_jwt"
version = "0.1.0"
edition = "2021"
publish = false

[dependencies]
aws-config = "1"
aws-sdk-cognitoidentityprovider = "1"
clap = { version = "4", features = ["derive"] }
rpassword = "7"
serde_json = "1"
tokio = { version = "1", features = ["macros", "rt"] }
