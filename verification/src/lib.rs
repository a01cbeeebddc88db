//! Configuration of the network stack: the addresses, seed and protocol
//! settings a stack instance is started with, built by verified builders.

pub mod addr;
pub mod config;
pub mod options;
mod seed;

pub use addr::{Ipv4Addr, MacAddress};
pub use config::{ArpConfig, TcpConfig, UdpConfig};
pub use options::Options;
