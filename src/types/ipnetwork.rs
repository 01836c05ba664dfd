//! Network address types of the `ipnetwork` crate.

pub use ipnetwork::{IpNetwork, Ipv4Network, Ipv6Network};
