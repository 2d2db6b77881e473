[package]
name = "flash_loan"
version = "0.1.0"
edition = "2021"
publish = false

[dependencies]
ink_env = "3"
ink_lang = "3"
ink_prelude = "3"
ink_storage = "3"
openbrush = { version = "2.2", features = ["psp22", "ownable"] }
parity-scale-codec = { version = "3", features = ["derive"] }
scale-info = { version = "2", features = ["derive"] }
