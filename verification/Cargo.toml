[package]
name = "fibonacci_air"
version = "0.1.0"
edition = "2021"
publish = false

[dependencies]
p3-air = "0.3"
p3-challenger = "0.3"
p3-circle = "0.3"
p3-commit = "0.3"
p3-field = "0.3"
p3-fri = "0.3"
p3-keccak = "0.3"
p3-matrix = "0.3"
p3-merkle-tree = "0.3"
p3-mersenne-31 = "0.3"
p3-symmetric = "0.3"
p3-uni-stark = "0.3"
serde = { version = "1", features = ["derive"] }
serde_json = "1"
tracing-forest = "0.1"
tracing-subscriber = { version = "0.3", features = ["std", "env-filter"] }
