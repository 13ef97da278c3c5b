use vstd::prelude::*;

verus! {

/// Size of the buffers the relay uses on the virtual-interface side; a
/// frame read from the interface is never longer than this.
pub const BUFFER_SIZE: usize = 131072;

/// Length of the L2 header at the start of every frame exchanged with
/// the virtual interface: destination MAC, source MAC, 2-byte ethertype.
pub const L2_HEADER_LEN: usize = 14;

/// Cryptographic overhead the tunnel engine may add to a payload; an
/// output buffer handed to the engine must leave this much headroom.
pub const CRYPTO_OVERHEAD: usize = 32;

/// Smallest output buffer the tunnel engine accepts for any call.
pub const MIN_ENGINE_BUFFER: usize = 148;

/// Which IP version a delivered payload carries; it selects the
/// ethertype written into the synthesized L2 header.
#[derive(Clone, Copy, Debug, PartialEq, Eq)]
pub enum IpVersion {
    V4,
    V6,
}

/// The two ethertype bytes at offsets 12 and 13 of a frame: 0x0800 for
/// IPv4, 0x86DD for IPv6.
pub open spec fn ethertype_bytes(v: IpVersion) -> Seq<u8> {
    match v {
        IpVersion::V4 => seq![0x08u8, 0x00u8],
        IpVersion::V6 => seq![0x86u8, 0xDDu8],
    }
}

/// The frame written to the virtual interface for a delivered payload
/// `p`: 12 zeroed MAC bytes, the ethertype for the IP version, then `p`.
pub open spec fn frame_bytes(v: IpVersion, p: Seq<u8>) -> Seq<u8> {
    Seq::new(12, |i: int| 0u8) + ethertype_bytes(v) + p
}

/// The payload handed to the tunnel engine for a frame read from the
/// virtual interface: the frame with its L2 header removed.
pub open spec fn stripped(frame: Seq<u8>) -> Seq<u8> {
    frame.subrange(L2_HEADER_LEN as int, frame.len() as int)
}

/// Synthesize the frame for a payload delivered by the tunnel engine:
/// zeroed MAC fields, the ethertype for `v`, then the payload itself.
pub fn build_frame(payload: &[u8], v: IpVersion) -> (r: Vec<u8>)
    requires
        payload@.len() + L2_HEADER_LEN <= BUFFER_SIZE,
    ensures
        r@ == frame_bytes(v, payload@),
        r@.len() == payload@.len() + L2_HEADER_LEN,
{
    let mut r: Vec<u8> = Vec::new();
    let mut i: usize = 0;
    while i < 12
        invariant
            i <= 12,
            r@ =~= Seq::new(i as nat, |j: int| 0u8),
        decreases 12 - i,
    {
        r.push(0u8);
        i += 1;
    }
    match v {
        IpVersion::V4 => {
            r.push(0x08u8);
            r.push(0x00u8);
        }
        IpVersion::V6 => {
            r.push(0x86u8);
            r.push(0xDDu8);
        }
    }
    proof {
        assert(r@ =~= frame_bytes(v, payload@.subrange(0, 0)));
    }
    let mut k: usize = 0;
    while k < payload.len()
        invariant
            k <= payload@.len(),
            payload@.len() + L2_HEADER_LEN <= BUFFER_SIZE,
            r@ =~= frame_bytes(v, payload@.subrange(0, k as int)),
        decreases payload@.len() - k,
    {
        r.push(payload[k]);
        k += 1;
        proof {
            assert(payload@.subrange(0, k as int)
                =~= payload@.subrange(0, k - 1).push(payload@[k - 1]));
            assert(frame_bytes(v, payload@.subrange(0, k - 1)).push(payload@[k - 1])
                =~= frame_bytes(v, payload@.subrange(0, k as int)));
        }
    }
    proof {
        assert(payload@.subrange(0, payload@.len() as int) =~= payload@);
    }
    r
}

} // verus!
