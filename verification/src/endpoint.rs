use vstd::prelude::*;

verus! {

/// The raw octets of an IP address, IPv4 or IPv6.
#[derive(Clone, Copy, Debug, PartialEq, Eq)]
pub enum IpOctets {
    V4([u8; 4]),
    V6([u8; 16]),
}

/// The network address of the remote peer: an IP address and a UDP
/// port.  It is either configured at startup or learned from the source
/// address of the first inbound datagram.
#[derive(Clone, Copy, Debug, PartialEq, Eq)]
pub struct Endpoint {
    pub ip: IpOctets,
    pub port: u16,
}

} // verus!
