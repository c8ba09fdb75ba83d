[package]
name = "smithy_identity"
version = "0.1.0"
edition = "2021"
publish = false

[dependencies]
aws-smithy-async = "0.56"
aws-smithy-types = "0.56"
tracing = "0.1"
