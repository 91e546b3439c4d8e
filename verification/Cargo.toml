[package]
name = "etcgbot"
version = "0.1.0"
edition = "2021"
publish = false

[dependencies]
log = "=0.4.34"
pretty_env_logger = "=0.5.0"
# Not used directly: pins teloxide-core's transitive takecell below 0.1.2,
# whose build demands a newer rustc than this crate supports.
takecell = "=0.1.1"
teloxide = { version = "=0.17.0", features = ["macros"] }
tokio = { version = "=1.53.2", features = ["macros", "rt-multi-thread"] }
