use vstd::prelude::*;

use crate::action::Action;
use crate::endpoint::{Endpoint, IpOctets};
use crate::frame::{BUFFER_SIZE, CRYPTO_OVERHEAD, L2_HEADER_LEN, MIN_ENGINE_BUFFER};
use boringtun::noise::{Tunn, TunnResult};

verus! {

/// The capability this relay drives: one stateful cryptographic session
/// with one peer.  The relay never looks inside the engine; it only
/// interprets the `Action` each call returns.  The session logic is
/// generic over this trait so that it can be exercised against a stub
/// engine as well as the real one.
pub trait TunnelEngine: Sized {
    /// The payloads this engine has been asked to encapsulate, oldest
    /// first.
    spec fn enc_log(&self) -> Seq<Seq<u8>>;

    /// The payloads that encapsulate calls answered with `Transmit`,
    /// oldest first.
    spec fn enc_transmits(&self) -> Seq<Seq<u8>>;

    /// The (sender, datagram) inputs this engine's decapsulate has been
    /// handed, oldest first.
    spec fn dec_log(&self) -> Seq<(Endpoint, Seq<u8>)>;

    /// The payloads that decapsulate calls answered with `Transmit`,
    /// oldest first.
    spec fn dec_transmits(&self) -> Seq<Seq<u8>>;

    /// How many times the engine's timers have been advanced.
    spec fn timer_calls(&self) -> nat;

    /// A measure of the outbound work the engine still holds queued
    /// internally; a drain call (`decapsulate` with an empty datagram)
    /// that yields more bytes to transmit strictly reduces it.
    spec fn pending(&self) -> nat;

    /// Transform one plaintext payload for transmission to the peer.
    fn encapsulate(&mut self, payload: &[u8]) -> (a: Action)
        requires
            payload@.len() + L2_HEADER_LEN <= BUFFER_SIZE,
        ensures
            final(self).enc_log() == old(self).enc_log().push(payload@),
            final(self).enc_transmits() == (match a {
                Action::Transmit(b) => old(self).enc_transmits().push(b@),
                _ => old(self).enc_transmits(),
            }),
            final(self).dec_log() == old(self).dec_log(),
            final(self).dec_transmits() == old(self).dec_transmits(),
            final(self).timer_calls() == old(self).timer_calls(),
    ;

    /// Parse one datagram received from the network; an empty datagram
    /// asks the engine to hand out further queued output instead.
    fn decapsulate(&mut self, sender: Endpoint, datagram: &[u8]) -> (a: Action)
        requires
            datagram@.len() <= BUFFER_SIZE - L2_HEADER_LEN + CRYPTO_OVERHEAD,
        ensures
            final(self).dec_log() == old(self).dec_log().push((sender, datagram@)),
            final(self).dec_transmits() == (match a {
                Action::Transmit(b) => old(self).dec_transmits().push(b@),
                _ => old(self).dec_transmits(),
            }),
            final(self).enc_log() == old(self).enc_log(),
            final(self).enc_transmits() == old(self).enc_transmits(),
            final(self).timer_calls() == old(self).timer_calls(),
            final(self).pending() <= old(self).pending() + 1,
            datagram@.len() == 0 ==> final(self).pending() <= old(self).pending(),
            datagram@.len() == 0 && (a is Transmit) ==> final(self).pending() < old(
                self,
            ).pending(),
            a matches Action::DeliverV4(p) ==> p@.len() + L2_HEADER_LEN <= BUFFER_SIZE,
            a matches Action::DeliverV6(p) ==> p@.len() + L2_HEADER_LEN <= BUFFER_SIZE,
    ;

    /// Advance the engine's internal timers; any resulting maintenance
    /// traffic comes back as a `Transmit` action.
    fn update_timers(&mut self) -> (a: Action)
        ensures
            final(self).timer_calls() == old(self).timer_calls() + 1,
            final(self).enc_log() == old(self).enc_log(),
            final(self).enc_transmits() == old(self).enc_transmits(),
            final(self).dec_log() == old(self).dec_log(),
            final(self).dec_transmits() == old(self).dec_transmits(),
    ;
}

#[verifier::external_type_specification]
#[verifier::external_body]
pub struct ExTunn(Tunn);

/// The outbound work a `Tunn` still holds: the number of packets in its
/// internal outbound packet queue, plus one while it may still produce
/// a fresh handshake initiation.  Named here so that contracts can say
/// that draining the engine comes to an end; nothing states its value.
pub uninterp spec fn wg_pending(t: Tunn) -> nat;

/// Relies on boringtun's `Tunn::new`: builds one tunnel from the raw
/// 32-byte keys, with no pre-shared key, index 0 and no rate limiter.
/// Its only error path is `Handshake::new`, whose parameter
/// construction (`NoiseParams::new`) always succeeds, so on 32-byte
/// keys the call always returns a tunnel.
#[verifier::external_body]
fn tunn_new(private_key: &Vec<u8>, peer_public_key: &Vec<u8>, persistent_keepalive: Option<
    u16,
>) -> (r: Option<Tunn>)
    requires
        private_key@.len() == 32,
        peer_public_key@.len() == 32,
    ensures
        r is Some,
{
    let sk: [u8; 32] = private_key.as_slice().try_into().unwrap();
    let pk: [u8; 32] = peer_public_key.as_slice().try_into().unwrap();
    let secret = boringtun::x25519::StaticSecret::from(sk);
    let public = boringtun::x25519::PublicKey::from(pk);
    Tunn::new(secret, public, None, persistent_keepalive, 0, None).ok()
}

/// Relies on boringtun's `Tunn::encapsulate`: it writes its output into
/// `dst`, which must hold at least `src.len() + 32` and at least 148
/// bytes, or the call panics.  The payload is bounded by the relay's
/// frame size so that every packet the engine queues for a later drain
/// call fits the drain buffer `tunn_decapsulate` asks for.
#[verifier::external_body]
fn tunn_encapsulate(tun: &mut Tunn, src: &[u8], dst: &mut Vec<u8>) -> (a: Action)
    requires
        src@.len() + L2_HEADER_LEN <= BUFFER_SIZE,
        dst@.len() >= src@.len() + CRYPTO_OVERHEAD,
        dst@.len() >= MIN_ENGINE_BUFFER,
{
    match tun.encapsulate(src, dst.as_mut_slice()) {
        TunnResult::Done => Action::Done,
        TunnResult::Err(e) => Action::Failed(format!("{:?}", e)),
        TunnResult::WriteToNetwork(b) => Action::Transmit(b.to_vec()),
        TunnResult::WriteToTunnelV4(b, _) => Action::DeliverV4(b.to_vec()),
        TunnResult::WriteToTunnelV6(b, _) => Action::DeliverV6(b.to_vec()),
    }
}

/// Relies on boringtun's `Tunn::decapsulate`.  The call panics only
/// when a buffer is too small, and the `requires` rule both cases out:
/// a data packet's ciphertext (the datagram minus its 16-byte header)
/// is copied into `dst`, so the datagram may exceed `dst` by at most
/// 16; and an empty-datagram drain call re-encapsulates a queued
/// packet, needing `dst` to hold that packet plus 32 — every packet
/// queued through `tunn_encapsulate` is at most `BUFFER_SIZE - 14`
/// bytes (its `requires`), so a `dst` of `BUFFER_SIZE - 14 + 32`
/// always suffices.  A delivered payload is the decrypted ciphertext,
/// possibly truncated to its IP length field, so it is at least 32
/// bytes shorter than the datagram; a drain call never delivers (it
/// returns the re-encapsulated packet, a fresh handshake initiation,
/// or nothing).  With an empty datagram the call only dequeues queued
/// output (`send_queued_packet`): it pops one queued packet, and
/// either sends it through the current session (one packet fewer
/// queued), re-queues it while producing the one handshake initiation
/// that may still be started, or returns without output; so a
/// `Transmit` result strictly reduces `wg_pending`, and no call with
/// an empty datagram increases it.  A call with a non-empty datagram
/// never queues an outbound packet; it can at most re-enable one
/// handshake initiation, raising `wg_pending` by one.
#[verifier::external_body]
fn tunn_decapsulate(tun: &mut Tunn, sender: Endpoint, datagram: &[u8], dst: &mut Vec<u8>) -> (a:
    Action)
    requires
        dst@.len() >= BUFFER_SIZE - L2_HEADER_LEN + CRYPTO_OVERHEAD,
        datagram@.len() <= dst@.len() + 16,
    ensures
        wg_pending(*final(tun)) <= wg_pending(*old(tun)) + 1,
        datagram@.len() == 0 ==> wg_pending(*final(tun)) <= wg_pending(*old(tun)),
        datagram@.len() == 0 && (a is Transmit) ==> wg_pending(*final(tun)) < wg_pending(
            *old(tun),
        ),
        datagram@.len() == 0 ==> !(a is DeliverV4) && !(a is DeliverV6),
        a matches Action::DeliverV4(p) ==> p@.len() + CRYPTO_OVERHEAD <= datagram@.len(),
        a matches Action::DeliverV6(p) ==> p@.len() + CRYPTO_OVERHEAD <= datagram@.len(),
{
    let ip = match sender.ip {
        IpOctets::V4(o) => core::net::IpAddr::from(o),
        IpOctets::V6(o) => core::net::IpAddr::from(o),
    };
    match tun.decapsulate(Some(ip), datagram, dst.as_mut_slice()) {
        TunnResult::Done => Action::Done,
        TunnResult::Err(e) => Action::Failed(format!("{:?}", e)),
        TunnResult::WriteToNetwork(b) => Action::Transmit(b.to_vec()),
        TunnResult::WriteToTunnelV4(b, _) => Action::DeliverV4(b.to_vec()),
        TunnResult::WriteToTunnelV6(b, _) => Action::DeliverV6(b.to_vec()),
    }
}

/// Relies on boringtun's `Tunn::update_timers`: it writes any
/// maintenance packet into `dst`, which must hold at least 148 bytes.
#[verifier::external_body]
fn tunn_update_timers(tun: &mut Tunn, dst: &mut Vec<u8>) -> (a: Action)
    requires
        dst@.len() >= MIN_ENGINE_BUFFER,
{
    match tun.update_timers(dst.as_mut_slice()) {
        TunnResult::Done => Action::Done,
        TunnResult::Err(e) => Action::Failed(format!("{:?}", e)),
        TunnResult::WriteToNetwork(b) => Action::Transmit(b.to_vec()),
        TunnResult::WriteToTunnelV4(b, _) => Action::DeliverV4(b.to_vec()),
        TunnResult::WriteToTunnelV6(b, _) => Action::DeliverV6(b.to_vec()),
    }
}

/// The tunnel engine backed by boringtun: one WireGuard session with
/// one peer.
pub struct WgEngine {
    tun: Tunn,
    enc_in: Ghost<Seq<Seq<u8>>>,
    enc_out: Ghost<Seq<Seq<u8>>>,
    dec_in: Ghost<Seq<(Endpoint, Seq<u8>)>>,
    dec_out: Ghost<Seq<Seq<u8>>>,
    timers: Ghost<nat>,
}

impl WgEngine {
    /// Build the engine from raw 32-byte keys.  On such keys boringtun
    /// never rejects the material, so an engine always comes back; the
    /// `Option` mirrors the constructor's shape for callers that treat
    /// `None` as fatal.
    pub fn new(private_key: &Vec<u8>, peer_public_key: &Vec<u8>, persistent_keepalive: Option<
        u16,
    >) -> (r: Option<WgEngine>)
        requires
            private_key@.len() == 32,
            peer_public_key@.len() == 32,
        ensures
            r is Some,
            r matches Some(e) ==> (e.enc_log() == Seq::<Seq<u8>>::empty() && e.enc_transmits()
                == Seq::<Seq<u8>>::empty() && e.dec_log() == Seq::<(Endpoint, Seq<u8>)>::empty()
                && e.dec_transmits() == Seq::<Seq<u8>>::empty() && e.timer_calls() == 0),
    {
        match tunn_new(private_key, peer_public_key, persistent_keepalive) {
            Some(t) => Some(
                WgEngine {
                    tun: t,
                    enc_in: Ghost(Seq::empty()),
                    enc_out: Ghost(Seq::empty()),
                    dec_in: Ghost(Seq::empty()),
                    dec_out: Ghost(Seq::empty()),
                    timers: Ghost(0),
                },
            ),
            None => None,
        }
    }
}

impl TunnelEngine for WgEngine {
    closed spec fn enc_log(&self) -> Seq<Seq<u8>> {
        self.enc_in@
    }

    closed spec fn enc_transmits(&self) -> Seq<Seq<u8>> {
        self.enc_out@
    }

    closed spec fn dec_log(&self) -> Seq<(Endpoint, Seq<u8>)> {
        self.dec_in@
    }

    closed spec fn dec_transmits(&self) -> Seq<Seq<u8>> {
        self.dec_out@
    }

    closed spec fn timer_calls(&self) -> nat {
        self.timers@
    }

    closed spec fn pending(&self) -> nat {
        wg_pending(self.tun)
    }

    fn encapsulate(&mut self, payload: &[u8]) -> (a: Action) {
        let cap: usize = BUFFER_SIZE - L2_HEADER_LEN + CRYPTO_OVERHEAD;
        let mut dst: Vec<u8> = vec![0u8; cap];
        self.enc_in = Ghost(self.enc_in@.push(payload@));
        let a = tunn_encapsulate(&mut self.tun, payload, &mut dst);
        self.enc_out = Ghost(
            match &a {
                Action::Transmit(b) => self.enc_out@.push(b@),
                _ => self.enc_out@,
            },
        );
        a
    }

    fn decapsulate(&mut self, sender: Endpoint, datagram: &[u8]) -> (a: Action) {
        let cap: usize = BUFFER_SIZE - L2_HEADER_LEN + CRYPTO_OVERHEAD;
        let mut dst: Vec<u8> = vec![0u8; cap];
        self.dec_in = Ghost(self.dec_in@.push((sender, datagram@)));
        let a = tunn_decapsulate(&mut self.tun, sender, datagram, &mut dst);
        self.dec_out = Ghost(
            match &a {
                Action::Transmit(b) => self.dec_out@.push(b@),
                _ => self.dec_out@,
            },
        );
        a
    }

    fn update_timers(&mut self) -> (a: Action) {
        let cap: usize = BUFFER_SIZE - L2_HEADER_LEN + CRYPTO_OVERHEAD;
        let mut dst: Vec<u8> = vec![0u8; cap];
        self.timers = Ghost(self.timers@ + 1);
        tunn_update_timers(&mut self.tun, &mut dst)
    }
}

} // verus!
