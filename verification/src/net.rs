//! Network addresses as plain values.

use vstd::prelude::*;

verus! {

/// An IPv4 address, one field for each of its four octets in the order in
/// which they are written.
#[derive(Clone, Copy, Debug, PartialEq, Eq, Structural)]
pub struct Ipv4Address {
    pub a: u8,
    pub b: u8,
    pub c: u8,
    pub d: u8,
}

impl Ipv4Address {
    /// The address as one number, the first octet most significant.
    pub open spec fn spec_bits(self) -> u32 {
        (16777216 * (self.a as int) + 65536 * (self.b as int) + 256 * (self.c as int) + (
        self.d as int)) as u32
    }

    #[verifier::when_used_as_spec(spec_bits)]
    pub fn bits(self) -> (r: u32)
        ensures
            r == self.spec_bits(),
    {
        16777216 * (self.a as u32) + 65536 * (self.b as u32) + 256 * (self.c as u32) + (
        self.d as u32)
    }
}

/// An IP address of either family.
#[derive(Clone, Copy, Debug, PartialEq, Eq, Structural)]
pub enum IpAddress {
    V4(Ipv4Address),
    V6 { bits: u128, flowinfo: u32, scope_id: u32 },
}

/// Where datagrams go to and come from: an address and a UDP port.
#[derive(Clone, Copy, Debug, PartialEq, Eq, Structural)]
pub struct Endpoint {
    pub ip: IpAddress,
    pub port: u16,
}

} // verus!
