//! Connection settings of the daemon's websocket.
use vstd::prelude::*;

use super::Config;
use crate::text::{decimal, decimal_string};

verus! {

/// The port that the daemon listens on unless configured otherwise.
pub const DEFAULT_PORT: u16 = 7125;

/// Where to reach the daemon.
pub struct ClientBuilder {
    pub host: String,
    pub port: Option<u16>,
}

/// The port in effect: the configured one, else the default.
pub open spec fn port_or_default(port: Option<u16>) -> u16 {
    match port {
        Some(p) => p,
        None => DEFAULT_PORT,
    }
}

/// The websocket address for a host and an optional port.
pub open spec fn websocket_url_of(host: Seq<char>, port: Option<u16>) -> Seq<char> {
    "ws://"@ + host + ":"@ + decimal(port_or_default(port) as nat) + "/websocket"@
}

impl ClientBuilder {
    pub fn new(config: Config) -> (r: ClientBuilder)
        ensures
            r.host == config.host,
            r.port == config.port,
    {
        ClientBuilder { host: config.host, port: config.port }
    }

    /// The websocket address to connect to.
    pub fn websocket_url(&self) -> (r: String)
        ensures
            r@ == websocket_url_of(self.host@, self.port),
    {
        let port = match self.port {
            Some(p) => p,
            None => DEFAULT_PORT,
        };
        let digits = decimal_string(port as u64);
        String::from_str("ws://").concat(self.host.as_str()).concat(":").concat(
            digits.as_str(),
        ).concat("/websocket")
    }
}

} // verus!
