use vstd::prelude::*;

verus! {

/// The remote peer as configured at startup: its public key as base64
/// text and, optionally, its network address as text.  When no address
/// is configured it is learned from the first inbound datagram.
#[derive(Debug)]
pub struct Peer {
    pub public_key: String,
    pub endpoint: Option<String>,
}

/// The process configuration.  The values come from the environment;
/// this crate only applies the defaults and carries them.
#[derive(Debug)]
pub struct Config {
    pub interface_name: String,
    pub additional_setup: Option<String>,
    pub private_key: String,
    pub listen_addr: String,
    pub persistent_keepalive: Option<u16>,
    pub peer: Peer,
}

impl Config {
    /// Build a configuration from the optional raw values, applying the
    /// defaults: interface name `vpn%d`, listen address
    /// `0.0.0.0:51820`, and a persistent keepalive of 25 seconds.
    pub fn new(
        interface_name: Option<String>,
        additional_setup: Option<String>,
        private_key: String,
        listen_addr: Option<String>,
        persistent_keepalive: Option<u16>,
        peer: Peer,
    ) -> (c: Config)
        ensures
            c.interface_name@ == (match interface_name {
                Some(n) => n@,
                None => "vpn%d"@,
            }),
            c.additional_setup == additional_setup,
            c.private_key == private_key,
            c.listen_addr@ == (match listen_addr {
                Some(a) => a@,
                None => "0.0.0.0:51820"@,
            }),
            c.persistent_keepalive == (match persistent_keepalive {
                Some(k) => Some(k),
                None => Some(25u16),
            }),
            c.peer == peer,
    {
        let name = match interface_name {
            Some(n) => n,
            None => "vpn%d".to_owned(),
        };
        let addr = match listen_addr {
            Some(a) => a,
            None => "0.0.0.0:51820".to_owned(),
        };
        let keepalive = match persistent_keepalive {
            Some(k) => Some(k),
            None => Some(25u16),
        };
        Config {
            interface_name: name,
            additional_setup,
            private_key,
            listen_addr: addr,
            persistent_keepalive: keepalive,
            peer,
        }
    }
}

} // verus!
