[package]
name = "sniffglue"
version = "0.1.0"
edition = "2021"
publish = false

[dependencies]
pktparse = "*"
tls-parser = "*"
serde_json = { version = "1", features = ["arbitrary_precision"] }
uuid = "*"
cadence = "*"
get_if_addrs = "*"
num_cpus = "*"
pcap = "*"
structopt = "*"
threadpool = "*"
env_logger = "*"
atty = "*"
