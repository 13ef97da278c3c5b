use wgtap::action::Action;
use wgtap::endpoint::{Endpoint, IpOctets};
use wgtap::engine::TunnelEngine;
use wgtap::session::{
    ingress_outcome, keepalive_outcome, terminal_outcome, IngressOutcome, KeepaliveOutcome,
    Terminal, Tunnel,
};

/// A scripted engine: answers each call with the next queued action and
/// records everything it was asked.
struct StubEngine {
    /// Answers handed out in order; `Done` once exhausted.
    script: Vec<Action>,
    /// Payloads passed to `encapsulate`.
    enc_inputs: Vec<Vec<u8>>,
    /// Datagrams passed to `decapsulate`.
    decap_inputs: Vec<Vec<u8>>,
    timer_calls: usize,
}

impl StubEngine {
    fn new(script: Vec<Action>) -> StubEngine {
        StubEngine { script, enc_inputs: Vec::new(), decap_inputs: Vec::new(), timer_calls: 0 }
    }

    fn next_action(&mut self) -> Action {
        if self.script.is_empty() {
            Action::Done
        } else {
            self.script.remove(0)
        }
    }
}

impl TunnelEngine for StubEngine {
    // The specification items exist only for Verus; they are never
    // callable at run time.
    fn enc_log(&self) -> vstd::seq::Seq<vstd::seq::Seq<u8>> {
        panic!()
    }

    fn enc_transmits(&self) -> vstd::seq::Seq<vstd::seq::Seq<u8>> {
        panic!()
    }

    fn dec_log(&self) -> vstd::seq::Seq<(Endpoint, vstd::seq::Seq<u8>)> {
        panic!()
    }

    fn dec_transmits(&self) -> vstd::seq::Seq<vstd::seq::Seq<u8>> {
        panic!()
    }

    fn timer_calls(&self) -> vstd::prelude::nat {
        panic!()
    }

    fn pending(&self) -> vstd::prelude::nat {
        panic!()
    }

    fn encapsulate(&mut self, payload: &[u8]) -> Action {
        self.enc_inputs.push(payload.to_vec());
        self.next_action()
    }

    fn decapsulate(&mut self, _sender: Endpoint, datagram: &[u8]) -> Action {
        self.decap_inputs.push(datagram.to_vec());
        self.next_action()
    }

    fn update_timers(&mut self) -> Action {
        self.timer_calls += 1;
        self.next_action()
    }
}

fn addr_a() -> Endpoint {
    Endpoint { ip: IpOctets::V4([10, 0, 0, 1]), port: 51820 }
}

fn addr_b() -> Endpoint {
    Endpoint { ip: IpOctets::V4([10, 0, 0, 2]), port: 4242 }
}

/// A frame as the virtual interface hands it out: 12 zero MAC bytes,
/// an IPv4 ethertype, then the payload.
fn tap_frame(payload: &[u8]) -> Vec<u8> {
    let mut f = vec![0u8; 12];
    f.push(0x08);
    f.push(0x00);
    f.extend_from_slice(payload);
    f
}

#[test]
fn known_endpoint_frame_is_stripped_and_cipher_sent_once() {
    // Configured peer address; one injected frame; the engine answers
    // with one ciphertext: it must go to the configured address,
    // exactly once, and the engine must have seen the frame without
    // its first 14 bytes.
    let cipher = vec![0xDEu8, 0xAD, 0xBE, 0xEF];
    let stub = StubEngine::new(vec![Action::Transmit(cipher.clone())]);
    let mut tun = Tunnel::new(Some(addr_a()), stub);
    let payload = [0x45u8, 0x00, 0x00, 0x14];
    let frame = tap_frame(&payload);
    let r = tun.handle_tap(&frame);
    assert_eq!(r, IngressOutcome::Send(cipher, addr_a()));
    assert_eq!(tun.tun.enc_inputs, vec![payload.to_vec()]);
    assert_eq!(tun.endpoint, Some(addr_a()));
}

#[test]
fn without_endpoint_the_frame_is_dropped_and_the_engine_untouched() {
    let stub = StubEngine::new(vec![Action::Transmit(vec![1, 2, 3])]);
    let mut tun = Tunnel::new(None, stub);
    let frame = tap_frame(&[1, 2, 3, 4]);
    let r = tun.handle_tap(&frame);
    assert_eq!(r, IngressOutcome::NoEndpoint);
    assert!(tun.tun.enc_inputs.is_empty());
    assert_eq!(tun.endpoint, None);
}

#[test]
fn engine_failure_on_ingress_is_reported_and_dropped() {
    let stub = StubEngine::new(vec![Action::Failed(String::from("bad"))]);
    let mut tun = Tunnel::new(Some(addr_a()), stub);
    let r = tun.handle_tap(&tap_frame(&[9]));
    assert_eq!(r, IngressOutcome::EngineFailed(String::from("bad")));
}

#[test]
fn keepalive_skips_without_endpoint() {
    let stub = StubEngine::new(vec![Action::Transmit(vec![5])]);
    let mut tun = Tunnel::new(None, stub);
    let r = tun.handle_keepalive();
    assert_eq!(r, KeepaliveOutcome::Skip);
    assert_eq!(tun.tun.timer_calls, 0);
}

#[test]
fn keepalive_forwards_maintenance_traffic_to_the_endpoint() {
    let stub = StubEngine::new(vec![Action::Transmit(vec![5, 6])]);
    let mut tun = Tunnel::new(Some(addr_b()), stub);
    let r = tun.handle_keepalive();
    assert_eq!(r, KeepaliveOutcome::Send(vec![5, 6], addr_b()));
    assert_eq!(tun.tun.timer_calls, 1);
}

#[test]
fn first_datagram_sender_becomes_the_endpoint() {
    // No peer address configured; one inbound datagram from A; the
    // engine answers `Done`: A becomes the endpoint and nothing is
    // dropped for want of one.
    let stub = StubEngine::new(vec![Action::Done]);
    let mut tun = Tunnel::new(None, stub);
    let r = tun.handle_socket(&[1, 2, 3], addr_a());
    assert_eq!(tun.endpoint, Some(addr_a()));
    assert!(r.learned);
    assert_eq!(r.target, addr_a());
    assert!(r.sends.is_empty());
    assert_eq!(r.terminal, Terminal::Quiet);
}

#[test]
fn a_learned_endpoint_is_never_overwritten() {
    let stub = StubEngine::new(vec![Action::Done, Action::Done]);
    let mut tun = Tunnel::new(None, stub);
    tun.handle_socket(&[1], addr_a());
    let r = tun.handle_socket(&[2], addr_b());
    assert_eq!(tun.endpoint, Some(addr_a()));
    assert!(!r.learned);
    assert_eq!(r.target, addr_a());
}

#[test]
fn a_configured_endpoint_is_never_overwritten() {
    let stub = StubEngine::new(vec![Action::Done]);
    let mut tun = Tunnel::new(Some(addr_a()), stub);
    let r = tun.handle_socket(&[2], addr_b());
    assert_eq!(tun.endpoint, Some(addr_a()));
    assert!(!r.learned);
    assert_eq!(r.target, addr_a());
}

#[test]
fn drain_sends_each_queued_transmit_then_stops() {
    // The engine answers the datagram with a transmit, then two more
    // on the empty-input drain calls, then `Done`: exactly those three
    // datagrams are sent, in order.
    let d1 = vec![0x11u8];
    let d2 = vec![0x22u8, 0x22];
    let d3 = vec![0x33u8, 0x33, 0x33];
    let stub = StubEngine::new(vec![
        Action::Transmit(d1.clone()),
        Action::Transmit(d2.clone()),
        Action::Transmit(d3.clone()),
        Action::Done,
    ]);
    let mut tun = Tunnel::new(Some(addr_a()), stub);
    let r = tun.handle_socket(&[7, 7], addr_a());
    assert_eq!(r.sends, vec![d1, d2, d3]);
    assert_eq!(r.terminal, Terminal::Quiet);
    // The first call carried the datagram, every drain call an empty
    // input.
    assert_eq!(tun.tun.decap_inputs.len(), 4);
    assert_eq!(tun.tun.decap_inputs[0], vec![7, 7]);
    assert!(tun.tun.decap_inputs[1..].iter().all(|d| d.is_empty()));
}

#[test]
fn delivered_v4_payload_comes_back_framed() {
    let payload = vec![0x45u8, 0x00, 0x00, 0x14, 0x99];
    let stub = StubEngine::new(vec![Action::DeliverV4(payload.clone())]);
    let mut tun = Tunnel::new(Some(addr_a()), stub);
    let r = tun.handle_socket(&[1], addr_a());
    let mut expected = vec![0u8; 12];
    expected.push(0x08);
    expected.push(0x00);
    expected.extend_from_slice(&payload);
    assert_eq!(r.terminal, Terminal::Deliver(expected));
    assert!(r.sends.is_empty());
}

#[test]
fn delivered_v6_payload_comes_back_framed() {
    let payload = vec![0x60u8, 0x01];
    let stub = StubEngine::new(vec![Action::DeliverV6(payload.clone())]);
    let mut tun = Tunnel::new(Some(addr_a()), stub);
    let r = tun.handle_socket(&[1], addr_a());
    let mut expected = vec![0u8; 12];
    expected.push(0x86);
    expected.push(0xDD);
    expected.extend_from_slice(&payload);
    assert_eq!(r.terminal, Terminal::Deliver(expected));
}

#[test]
fn transmits_drained_before_a_delivery_are_all_sent() {
    let d1 = vec![0x0Au8];
    let payload = vec![0x45u8, 0x01];
    let stub = StubEngine::new(vec![
        Action::Transmit(d1.clone()),
        Action::DeliverV4(payload.clone()),
    ]);
    let mut tun = Tunnel::new(None, stub);
    let r = tun.handle_socket(&[3, 3, 3], addr_b());
    assert_eq!(r.sends, vec![d1]);
    assert_eq!(r.target, addr_b());
    match r.terminal {
        Terminal::Deliver(f) => {
            assert_eq!(&f[14..], &payload[..]);
            assert_eq!(f[12], 0x08);
        }
        other => panic!("expected a delivery, got {:?}", other),
    }
}

#[test]
fn engine_failure_on_egress_is_reported() {
    let stub = StubEngine::new(vec![Action::Failed(String::from("replay"))]);
    let mut tun = Tunnel::new(Some(addr_a()), stub);
    let r = tun.handle_socket(&[9], addr_a());
    assert_eq!(r.terminal, Terminal::EngineFailed(String::from("replay")));
    assert!(r.sends.is_empty());
}

#[test]
fn a_delivery_answering_an_encapsulate_call_is_ignored() {
    // Encapsulate must not logically produce a delivery; the
    // interpretation is defensive and asks for nothing.
    let r = ingress_outcome(Action::DeliverV4(vec![0x45]), addr_a());
    assert_eq!(r, IngressOutcome::Quiet);
    let r = keepalive_outcome(Action::DeliverV6(vec![0x60]), addr_a());
    assert_eq!(r, KeepaliveOutcome::Quiet);
}

#[test]
fn terminal_actions_map_to_their_outcomes() {
    assert_eq!(terminal_outcome(Action::Done), Terminal::Quiet);
    assert_eq!(
        terminal_outcome(Action::Failed(String::from("x"))),
        Terminal::EngineFailed(String::from("x"))
    );
    let mut expected = vec![0u8; 12];
    expected.extend_from_slice(&[0x86, 0xDD, 0x60]);
    assert_eq!(
        terminal_outcome(Action::DeliverV6(vec![0x60])),
        Terminal::Deliver(expected)
    );
}

