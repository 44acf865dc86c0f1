[package]
name = "chess_bot"
version = "0.1.0"
edition = "2021"
publish = false

[dependencies]
shakmaty = "=0.29.4"
stockfish = "=0.2.11"
deadpool = "=0.13.1"
tokio = { version = "=1.53.2", features = ["rt-multi-thread", "macros", "time", "sync"] }
dotenv = "=0.15.0"
num_cpus = "=1.17.0"
