use vstd::prelude::*;

use crate::action::{is_transmit, Action};
use crate::endpoint::Endpoint;
use crate::engine::TunnelEngine;
use crate::frame::{build_frame, frame_bytes, stripped, IpVersion, BUFFER_SIZE, CRYPTO_OVERHEAD,
    L2_HEADER_LEN};

verus! {

/// What one frame read from the virtual interface asks the caller to
/// do.
#[derive(Debug, PartialEq, Eq)]
pub enum IngressOutcome {
    /// No peer endpoint is known yet: the frame is dropped, never
    /// buffered or retried.
    NoEndpoint,
    /// Send the bytes to the peer endpoint over the transport.
    Send(Vec<u8>, Endpoint),
    /// The engine rejected the frame; drop it and go on.
    EngineFailed(String),
    /// The engine produced nothing to send.
    Quiet,
}

/// What one timer tick asks the caller to do.
#[derive(Debug, PartialEq, Eq)]
pub enum KeepaliveOutcome {
    /// No peer endpoint is known yet: the tick is skipped entirely.
    Skip,
    /// Send the maintenance bytes to the peer endpoint.
    Send(Vec<u8>, Endpoint),
    /// The engine reported an error; log it and go on.
    EngineFailed(String),
    /// The timers needed no traffic.
    Quiet,
}

/// How one inbound datagram ends after the engine has drained all
/// queued output.
#[derive(Debug, PartialEq, Eq)]
pub enum Terminal {
    /// Nothing further to do.
    Quiet,
    /// The engine rejected the datagram; log it and go on.
    EngineFailed(String),
    /// Write this complete frame (L2 header already synthesized) to
    /// the virtual interface.
    Deliver(Vec<u8>),
}

/// Everything one inbound datagram asks the caller to do: first send
/// each element of `sends`, in order, to `target`; then act on
/// `terminal`.  `learned` reports that this datagram's sender was just
/// adopted as the peer endpoint.
#[derive(Debug, PartialEq, Eq)]
pub struct EgressOutcome {
    pub sends: Vec<Vec<u8>>,
    pub target: Endpoint,
    pub learned: bool,
    pub terminal: Terminal,
}

/// The endpoint-learning rule applied on each inbound datagram: a
/// known peer endpoint is kept, and only when none is known yet is the
/// sender's address adopted.
pub open spec fn learned_endpoint(ep: Option<Endpoint>, sender: Endpoint) -> Option<Endpoint> {
    match ep {
        Some(e) => Some(e),
        None => Some(sender),
    }
}

/// Endpoint learning is idempotent: once an endpoint has been adopted
/// from the first inbound datagram, no later datagram — whatever its
/// own source address — changes it.
pub proof fn lemma_endpoint_learning_idempotent(
    ep: Option<Endpoint>,
    first: Endpoint,
    later: Endpoint,
)
    ensures
        learned_endpoint(learned_endpoint(ep, first), later) == learned_endpoint(ep, first),
{
}

/// Interpret the action answering an encapsulate call: bytes to
/// transmit go to the peer endpoint, a failure is reported, and
/// anything else asks for nothing — a delivery can logically not
/// answer an encapsulate call and is ignored defensively.
pub fn ingress_outcome(a: Action, ep: Endpoint) -> (r: IngressOutcome)
    ensures
        a matches Action::Transmit(b) ==> r == IngressOutcome::Send(b, ep),
        a matches Action::Failed(m) ==> r == IngressOutcome::EngineFailed(m),
        a is Done ==> r == IngressOutcome::Quiet,
        a is DeliverV4 || a is DeliverV6 ==> r == IngressOutcome::Quiet,
{
    match a {
        Action::Transmit(b) => IngressOutcome::Send(b, ep),
        Action::Failed(m) => IngressOutcome::EngineFailed(m),
        _ => IngressOutcome::Quiet,
    }
}

/// Interpret the action answering a timer call, exactly as for
/// ingress: deliveries are impossible from a timer call and are
/// ignored defensively.
pub fn keepalive_outcome(a: Action, ep: Endpoint) -> (r: KeepaliveOutcome)
    ensures
        a matches Action::Transmit(b) ==> r == KeepaliveOutcome::Send(b, ep),
        a matches Action::Failed(m) ==> r == KeepaliveOutcome::EngineFailed(m),
        a is Done ==> r == KeepaliveOutcome::Quiet,
        a is DeliverV4 || a is DeliverV6 ==> r == KeepaliveOutcome::Quiet,
{
    match a {
        Action::Transmit(b) => KeepaliveOutcome::Send(b, ep),
        Action::Failed(m) => KeepaliveOutcome::EngineFailed(m),
        _ => KeepaliveOutcome::Quiet,
    }
}

/// Interpret the terminal action of one drained inbound datagram: a
/// delivered payload is framed behind a synthesized L2 header, a
/// failure is reported, and `Done` asks for nothing.  The engine was
/// drained first, so the action can no longer be a transmission.
pub fn terminal_outcome(a: Action) -> (r: Terminal)
    requires
        !(a is Transmit),
        a matches Action::DeliverV4(p) ==> p@.len() + L2_HEADER_LEN <= BUFFER_SIZE,
        a matches Action::DeliverV6(p) ==> p@.len() + L2_HEADER_LEN <= BUFFER_SIZE,
    ensures
        a is Done ==> r == Terminal::Quiet,
        a matches Action::Failed(m) ==> r == Terminal::EngineFailed(m),
        a matches Action::DeliverV4(p) ==> (r matches Terminal::Deliver(f) && f@ == frame_bytes(
            IpVersion::V4,
            p@,
        )),
        a matches Action::DeliverV6(p) ==> (r matches Terminal::Deliver(f) && f@ == frame_bytes(
            IpVersion::V6,
            p@,
        )),
{
    match a {
        Action::Done => Terminal::Quiet,
        Action::Failed(m) => Terminal::EngineFailed(m),
        Action::Transmit(_) => vstd::pervasive::unreached(),
        Action::DeliverV4(p) => Terminal::Deliver(build_frame(p.as_slice(), IpVersion::V4)),
        Action::DeliverV6(p) => Terminal::Deliver(build_frame(p.as_slice(), IpVersion::V6)),
    }
}

/// One relay session: the learned peer endpoint and the tunnel engine,
/// the pair the three relay loops coordinate through.  The caller must
/// drive all three handlers through one exclusive-access gate, since
/// every handler mutates the engine.
pub struct Tunnel<E: TunnelEngine> {
    pub endpoint: Option<Endpoint>,
    pub tun: E,
}

impl<E: TunnelEngine> Tunnel<E> {
    /// Start a session, with the peer endpoint either pre-configured
    /// (`Some`) or left to be learned from the first inbound datagram.
    pub fn new(endpoint: Option<Endpoint>, tun: E) -> (t: Tunnel<E>)
        ensures
            t.endpoint == endpoint,
            t.tun == tun,
    {
        Tunnel { endpoint, tun }
    }

    /// Handle one frame read from the virtual interface: strip its L2
    /// header, hand the payload to the engine, and say what to send.
    /// While no peer endpoint is known the frame is dropped and the
    /// engine is never called.
    pub fn handle_tap(&mut self, frame: &[u8]) -> (r: IngressOutcome)
        requires
            L2_HEADER_LEN <= frame@.len() <= BUFFER_SIZE,
        ensures
            final(self).endpoint == old(self).endpoint,
            (r is NoEndpoint) == (old(self).endpoint is None),
            old(self).endpoint is None ==> final(self).tun == old(self).tun,
            old(self).endpoint is Some ==> final(self).tun.enc_log() == old(
                self,
            ).tun.enc_log().push(stripped(frame@)),
            old(self).endpoint is Some ==> final(self).tun.enc_transmits() == (match r {
                IngressOutcome::Send(b, _) => old(self).tun.enc_transmits().push(b@),
                _ => old(self).tun.enc_transmits(),
            }),
            r matches IngressOutcome::Send(b, ep) ==> old(self).endpoint == Some(ep),
    {
        match self.endpoint {
            None => IngressOutcome::NoEndpoint,
            Some(ep) => {
                let payload = &frame[L2_HEADER_LEN..frame.len()];
                let a = self.tun.encapsulate(payload);
                ingress_outcome(a, ep)
            }
        }
    }

    /// Handle one timer tick: while no peer endpoint is known the tick
    /// is a no-op; otherwise the engine's timers are advanced and any
    /// maintenance traffic is handed back for sending.
    pub fn handle_keepalive(&mut self) -> (r: KeepaliveOutcome)
        ensures
            final(self).endpoint == old(self).endpoint,
            (r is Skip) == (old(self).endpoint is None),
            old(self).endpoint is None ==> final(self).tun == old(self).tun,
            old(self).endpoint is Some ==> final(self).tun.timer_calls() == old(
                self,
            ).tun.timer_calls() + 1,
            final(self).tun.enc_log() == old(self).tun.enc_log(),
            r matches KeepaliveOutcome::Send(b, ep) ==> old(self).endpoint == Some(ep),
    {
        match self.endpoint {
            None => KeepaliveOutcome::Skip,
            Some(ep) => {
                let a = self.tun.update_timers();
                keepalive_outcome(a, ep)
            }
        }
    }

    /// Handle one datagram received from the transport.  If no peer
    /// endpoint is known yet, the sender's address is adopted, exactly
    /// once: a configured or previously learned endpoint is never
    /// overwritten, whatever address later datagrams come from.  The
    /// datagram is then handed to the engine, and as long as the engine
    /// answers with bytes to transmit, it is drained with empty-input
    /// calls; the drained datagrams come back in `sends`, finitely
    /// many, bounded by the output the engine held queued.  A delivered
    /// payload comes back as a complete frame behind a synthesized L2
    /// header.
    pub fn handle_socket(&mut self, datagram: &[u8], sender: Endpoint) -> (r: EgressOutcome)
        requires
            datagram@.len() <= BUFFER_SIZE - L2_HEADER_LEN + CRYPTO_OVERHEAD,
        ensures
            final(self).endpoint == learned_endpoint(old(self).endpoint, sender),
            final(self).endpoint == Some(r.target),
            r.learned == (old(self).endpoint is None),
            final(self).tun.enc_log() == old(self).tun.enc_log(),
            final(self).tun.enc_transmits() == old(self).tun.enc_transmits(),
            final(self).tun.timer_calls() == old(self).tun.timer_calls(),
            final(self).tun.dec_log() == old(self).tun.dec_log().push((sender, datagram@))
                + Seq::new(r.sends@.len(), |i: int| (sender, Seq::<u8>::empty())),
            final(self).tun.dec_transmits() == old(self).tun.dec_transmits()
                + r.sends@.map_values(|v: Vec<u8>| v@),
            r.sends@.len() <= old(self).tun.pending() + 2,
            r.terminal matches Terminal::Deliver(f) ==> (exists|p: Seq<u8>|
                f@ == frame_bytes(IpVersion::V4, p) || f@ == frame_bytes(IpVersion::V6, p)),
    {
        let learned = self.endpoint.is_none();
        if learned {
            self.endpoint = Some(sender);
        }
        let target = self.endpoint.unwrap();
        let ghost log0 = self.tun.enc_log();
        let ghost et0 = self.tun.enc_transmits();
        let ghost tc0 = self.tun.timer_calls();
        let ghost dlog0 = self.tun.dec_log();
        let ghost dt0 = self.tun.dec_transmits();
        let ghost p0 = self.tun.pending();
        let mut sends: Vec<Vec<u8>> = Vec::new();
        let empty_input: Vec<u8> = Vec::new();
        let mut a = self.tun.decapsulate(sender, datagram);
        proof {
            assert(empty_input@ =~= Seq::<u8>::empty());
            assert(self.tun.dec_log() =~= dlog0.push((sender, datagram@)) + Seq::new(
                sends@.len(),
                |i: int| (sender, Seq::<u8>::empty()),
            ));
            assert(self.tun.dec_transmits() =~= dt0 + sends@.map_values(|v: Vec<u8>| v@)
                + (match a {
                Action::Transmit(b) => seq![b@],
                _ => Seq::<Seq<u8>>::empty(),
            }));
        }
        while is_transmit(&a)
            invariant
                self.endpoint == Some(target),
                self.tun.enc_log() == log0,
                self.tun.enc_transmits() == et0,
                self.tun.timer_calls() == tc0,
                empty_input@ == Seq::<u8>::empty(),
                self.tun.dec_log() == dlog0.push((sender, datagram@)) + Seq::new(
                    sends@.len(),
                    |i: int| (sender, Seq::<u8>::empty()),
                ),
                self.tun.dec_transmits() == dt0 + sends@.map_values(|v: Vec<u8>| v@) + (match a {
                    Action::Transmit(b) => seq![b@],
                    _ => Seq::<Seq<u8>>::empty(),
                }),
                sends@.len() + self.tun.pending() + (if a is Transmit {
                    1nat
                } else {
                    0nat
                }) <= p0 + 2,
                a matches Action::DeliverV4(p) ==> p@.len() + L2_HEADER_LEN <= BUFFER_SIZE,
                a matches Action::DeliverV6(p) ==> p@.len() + L2_HEADER_LEN <= BUFFER_SIZE,
            decreases self.tun.pending() + (if a is Transmit {
                1nat
            } else {
                0nat
            }),
        {
            let ghost pre_sends = sends@;
            let ghost a0 = a;
            match a {
                Action::Transmit(b) => {
                    sends.push(b);
                }
                _ => {}
            }
            a = self.tun.decapsulate(sender, empty_input.as_slice());
            proof {
                assert(a0 matches Action::Transmit(b0) && sends@ == pre_sends.push(b0));
                assert(self.tun.dec_log() =~= dlog0.push((sender, datagram@)) + Seq::new(
                    sends@.len(),
                    |i: int| (sender, Seq::<u8>::empty()),
                ));
                assert(self.tun.dec_transmits() =~= dt0 + sends@.map_values(|v: Vec<u8>| v@)
                    + (match a {
                    Action::Transmit(b) => seq![b@],
                    _ => Seq::<Seq<u8>>::empty(),
                }));
            }
        }
        proof {
            assert(self.tun.dec_transmits() =~= dt0 + sends@.map_values(|v: Vec<u8>| v@));
        }
        let terminal = terminal_outcome(a);
        EgressOutcome { sends, target, learned, terminal }
    }
}

} // verus!
