[package]
name = "quickbooks_sync"
version = "0.1.0"
edition = "2021"
publish = false

[dependencies]
anyhow = "=1.0.104"
chrono = "=0.4.45"
env_logger = "=0.11.11"
futures = "=0.3.34"
log = "=0.4.34"
reqwest = { version = "=0.12.28", features = ["json"] }
serde = { version = "=1.0.229", features = ["derive"] }
tokio = { version = "=1.54.1", features = ["macros", "rt-multi-thread"] }
toml = "=0.8.23"
winapi = { version = "=0.3.9", features = ["combaseapi", "guiddef", "oaidl", "objbase", "oleauto", "unknwnbase", "winnt", "wtypes", "wtypesbase"] }
