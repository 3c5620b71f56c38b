//! Decoding of captured network frames into layered packet records, and the
//! metrics that a sniffer keeps about what it has decoded.
pub mod centrifuge;
pub mod filter;
pub mod handshake;
pub mod http_syntax;
pub mod httpsniffer;
pub mod json;
pub mod link;
pub mod metrics;
pub mod number;
pub mod structs;
pub mod text;
pub mod wire;
