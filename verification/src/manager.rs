use vstd::prelude::*;
use crate::addr::Endpoint4;
use crate::signaling::{url_host, url_host_of, url_parse_of};

verus! {

/// Represents the established network path to the target device.
#[derive(Debug, Clone, Copy, PartialEq, Eq, Structural)]
pub enum ConnectionPath {
    /// Device was found directly on the local network (LAN).
    DirectLan(Endpoint4),
    /// Device is on the Internet; our public address was discovered via STUN and
    /// must now be exchanged with the peer through the Signal Server.
    P2pWan { our_public_addr: Endpoint4 },
    /// Device is behind a strict Symmetric NAT: the Relay Server is used.
    Relay(Endpoint4),
}

/// The next thing to do while establishing a path.
#[derive(Debug)]
pub enum PathStep {
    /// Look for the device on the LAN via mDNS, giving up after this many seconds.
    DiscoverLan { device_id: String, timeout_secs: u64 },
    /// Discover our public address with this STUN server.
    DiscoverWan { stun_server: String },
    /// Ask the Relay Server on `relay_host` (its control port `control_port`)
    /// for a relay port.
    AllocateRelay { relay_host: String, control_port: u16 },
    /// Finished: the path, or why none could be established.
    Done(Result<ConnectionPath, String>),
}

/// How long LAN discovery may take: a device on the same network answers in
/// well under a second.
pub const LAN_DISCOVERY_TIMEOUT_SECS: u64 = 2;

/// The port on which the Relay Server takes `POST /allocate` requests.
pub const RELAY_CONTROL_PORT: u16 = 3001;

/// The intelligent Connection Manager that orchestrates LAN vs WAN routing:
/// LAN first, then STUN hole punching, then the Relay Server, which runs on the
/// host of the Signal Server.
pub struct ConnectionManager {
    stun_server: String,
    _signal_server: String,
}

/// The error when neither LAN, WAN nor the relay gave a path.
pub open spec fn paths_exhausted_text() -> Seq<char> {
    "All connection paths exhausted."@
}

impl ConnectionManager {
    pub closed spec fn stun_server_view(&self) -> Seq<char> {
        self.stun_server@
    }

    pub closed spec fn signal_server_view(&self) -> Seq<char> {
        self._signal_server@
    }

    /// Creates a new Connection Manager.
    pub fn new(stun_server: String, signal_server: String) -> (m: Self)
        ensures
            m.stun_server_view() == stun_server@,
            m.signal_server_view() == signal_server@,
    {
        Self { stun_server, _signal_server: signal_server }
    }

    /// The first step towards `device_id`: LAN discovery with a short timeout.
    pub fn start_path(&self, device_id: &str) -> (s: PathStep)
        ensures
            s matches PathStep::DiscoverLan { device_id: d, timeout_secs: t } && d@ == device_id@ && t
                == LAN_DISCOVERY_TIMEOUT_SECS,
    {
        PathStep::DiscoverLan { device_id: device_id.to_owned(), timeout_secs: LAN_DISCOVERY_TIMEOUT_SECS }
    }

    /// After LAN discovery: a device found on the LAN is connected to directly;
    /// otherwise STUN discovery is next.
    pub fn after_lan(&self, lan: Result<Endpoint4, String>) -> (s: PathStep)
        ensures
            lan matches Ok(a) ==> s == PathStep::Done(Ok(ConnectionPath::DirectLan(a))),
            lan is Err ==> (s matches PathStep::DiscoverWan { stun_server: st } && st@ == self.stun_server_view()),
    {
        match lan {
            Ok(addr) => PathStep::Done(Ok(ConnectionPath::DirectLan(addr))),
            Err(_) => PathStep::DiscoverWan { stun_server: self.stun_server.clone() },
        }
    }

    /// After STUN discovery: our public address makes a WAN path; without it the
    /// Relay Server on the Signal Server's host is asked for a relay port. A
    /// Signal Server URL without a host leaves no path.
    pub fn after_wan(&self, wan: Result<Endpoint4, String>) -> (s: PathStep)
        ensures
            wan matches Ok(a) ==> s == PathStep::Done(Ok(ConnectionPath::P2pWan { our_public_addr: a })),
            wan is Err && url_parse_of(self.signal_server_view()) is Some && url_host_of(self.signal_server_view()) is Some
                ==> (s matches PathStep::AllocateRelay { relay_host: h, control_port: p } && Some(h@)
                == url_host_of(self.signal_server_view()) && p == RELAY_CONTROL_PORT),
            wan is Err && (url_parse_of(self.signal_server_view()) is None || url_host_of(
                self.signal_server_view(),
            ) is None) ==> (s matches PathStep::Done(Err(e)) && e@ == paths_exhausted_text()),
    {
        match wan {
            Ok(addr) => PathStep::Done(Ok(ConnectionPath::P2pWan { our_public_addr: addr })),
            Err(_) => match url_host(self._signal_server.as_str()) {
                Some(relay_host) => PathStep::AllocateRelay { relay_host, control_port: RELAY_CONTROL_PORT },
                None => PathStep::Done(Err("All connection paths exhausted.".to_owned())),
            },
        }
    }

    /// After asking the Relay Server: the relay port it allocated, at the
    /// address its control server answered from, is the path; without it every
    /// path is exhausted.
    pub fn after_relay(&self, relay: Result<(Endpoint4, u16), String>) -> (r: Result<ConnectionPath, String>)
        ensures
            relay matches Ok((control, port)) ==> r == Ok::<ConnectionPath, String>(
                ConnectionPath::Relay(Endpoint4 { ip: control.ip, port }),
            ),
            relay is Err ==> (r matches Err(e) && e@ == paths_exhausted_text()),
    {
        match relay {
            Ok((control, port)) => Ok(ConnectionPath::Relay(Endpoint4 { ip: control.ip, port })),
            Err(_) => Err("All connection paths exhausted.".to_owned()),
        }
    }
}

/// The LAN address of a path; video streaming is only available over the LAN.
pub fn require_lan(path: &ConnectionPath) -> (r: Result<Endpoint4, String>)
    ensures
        *path matches ConnectionPath::DirectLan(a) ==> r == Ok::<Endpoint4, String>(a),
        !(*path is DirectLan) ==> (r matches Err(e) && e@ == "Only LAN is currently supported for this video test."@),
{
    match path {
        ConnectionPath::DirectLan(addr) => Ok(*addr),
        _ => Err("Only LAN is currently supported for this video test.".to_owned()),
    }
}

} // verus!
