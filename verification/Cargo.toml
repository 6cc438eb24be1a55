[package]
name = "agent_supervisor"
version = "0.1.0"
edition = "2021"
publish = false

[dependencies]
fast_log = "=1.5.57"
flume = "=0.11.1"
hyper = { version = "=0.14.32", features = ["server", "http1", "tcp"] }
log = "=0.4.34"
notify = "=6.1.1"
prometheus-client = "=0.22.3"
tokio = { version = "=1.54.1", features = ["rt-multi-thread", "signal", "sync"] }
