//! The two fixed socket addresses of the process.

use vstd::prelude::*;

verus! {

/// An IPv4 address and TCP port that a listener binds.
#[derive(Clone, Copy, Debug, PartialEq, Eq)]
pub struct BindAddress {
    pub octets: [u8; 4],
    pub port: u16,
}

impl BindAddress {
    /// The address lies in 127.0.0.0/8.
    pub open spec fn is_loopback(self) -> bool {
        self.octets[0] == 127
    }

    /// The loopback address 127.0.0.1 with the given port.
    pub open spec fn localhost(port: u16) -> BindAddress {
        BindAddress { octets: [127u8, 0u8, 0u8, 1u8], port }
    }
}

/// The TCP port of the health API.
pub const HEALTH_PORT: u16 = 3030;

/// The TCP port of the echo gateway.
pub const GATEWAY_PORT: u16 = 8081;

/// Where the health API listens: 127.0.0.1:3030.
pub fn health_address() -> (addr: BindAddress)
    ensures
        addr == BindAddress::localhost(HEALTH_PORT),
        addr.is_loopback(),
        addr.port == 3030,
{
    BindAddress { octets: [127u8, 0u8, 0u8, 1u8], port: HEALTH_PORT }
}

/// Where the echo gateway listens: 127.0.0.1:8081.
pub fn gateway_address() -> (addr: BindAddress)
    ensures
        addr == BindAddress::localhost(GATEWAY_PORT),
        addr.is_loopback(),
        addr.port == 8081,
{
    BindAddress { octets: [127u8, 0u8, 0u8, 1u8], port: GATEWAY_PORT }
}

/// The two listeners never compete for one port.
pub proof fn listeners_are_distinct()
    ensures
        BindAddress::localhost(HEALTH_PORT) != BindAddress::localhost(GATEWAY_PORT),
        BindAddress::localhost(HEALTH_PORT).is_loopback(),
        BindAddress::localhost(GATEWAY_PORT).is_loopback(),
{
}

} // verus!
