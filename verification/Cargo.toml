[package]
name = "token_client"
version = "0.1.0"
edition = "2021"
publish = false

[dependencies]
solana-sdk = "~1.17"
solana-program = "~1.17"
solana-zk-token-sdk = "~1.17"
spl-token-2022 = { version = "1.0", features = ["no-entrypoint"] }
spl-token = { version = "=4.0.0", features = ["no-entrypoint"] }
spl-memo = { version = "=4.0.0", features = ["no-entrypoint"] }
spl-associated-token-account = { version = "2.3", features = ["no-entrypoint"] }
spl-token-metadata-interface = "0.2"
spl-token-group-interface = "0.1"
bytemuck = "1"
base64 = "0.21"
borsh = "0.10"
serde = { version = "1", features = ["derive"] }
thiserror = "1"
futures = "0.3"
futures-util = "0.3"

[dev-dependencies]
serde_json = "1"
