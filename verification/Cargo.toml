[package]
name = "sequencer"
version = "0.1.0"
edition = "2021"
publish = false

[dependencies]
differential-dataflow = "*"
timely = "*"
tokio = { version = "1", features = ["sync", "rt"] }
tracing = "0.1"
