use vstd::prelude::*;

verus! {

/// The result of one tunnel-engine call.  Exactly one variant is
/// produced per call.
#[derive(Debug, PartialEq, Eq)]
pub enum Action {
    /// The call produced no output.
    Done,
    /// The call failed; the text describes the engine's error.  The
    /// failure is non-fatal: the offending packet is dropped and the
    /// relay goes on.
    Failed(String),
    /// The bytes must be sent over the transport to the peer.
    Transmit(Vec<u8>),
    /// A decrypted IPv4 payload that must be written to the virtual
    /// interface behind a synthesized L2 header.
    DeliverV4(Vec<u8>),
    /// A decrypted IPv6 payload that must be written to the virtual
    /// interface behind a synthesized L2 header.
    DeliverV6(Vec<u8>),
}

/// True exactly when the action asks for bytes to be sent on the
/// transport.
pub fn is_transmit(a: &Action) -> (b: bool)
    ensures
        b == (a is Transmit),
{
    match a {
        Action::Transmit(_) => true,
        _ => false,
    }
}

} // verus!
