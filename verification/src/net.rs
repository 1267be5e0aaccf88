//! Network addresses.

use vstd::prelude::*;

verus! {

/// An IP address.
#[derive(Debug, Clone, Copy)]
pub enum IpAddress {
    /// The 32 bits of an IPv4 address.
    V4(u32),
    /// The eight 16-bit segments of an IPv6 address.
    V6([u16; 8]),
}

/// An IP address and a port.
#[derive(Debug, Clone, Copy)]
pub struct SocketAddress {
    pub ip: IpAddress,
    pub port: u16,
}

} // verus!
