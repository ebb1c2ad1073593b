use vstd::prelude::*;
use crate::sessions::SessionTable;
use crate::text::{push_str, string_is_empty};

verus! {

/// The text of the URL that `url::Url::parse` makes of `s` (its `as_str`);
/// `None` where `Url::parse` refuses `s`.
pub uninterp spec fn url_parse_of(s: Seq<char>) -> Option<Seq<char>>;

/// The host (`host_str`) of the URL that `url::Url::parse` makes of `s`; `None`
/// where it has none.
pub uninterp spec fn url_host_of(s: Seq<char>) -> Option<Seq<char>>;

/// `url::Url::parse(s)`: on success the URL's `as_str` and `host_str`, on
/// failure the `Display` text of the `ParseError`. Claimed: it succeeds exactly
/// when `url_parse_of(s)` is `Some`, and then gives `url_parse_of(s)` and
/// `url_host_of(s)`. Nothing is claimed of the error text.
#[verifier::external_body]
fn parse_url(s: &str) -> (r: Result<(String, Option<String>), String>)
    ensures
        r is Ok <==> url_parse_of(s@) is Some,
        r matches Ok((t, h)) ==> {
            &&& url_parse_of(s@) == Some(t@)
            &&& h is None ==> url_host_of(s@) is None
            &&& h matches Some(x) ==> url_host_of(s@) == Some(x@)
        },
{
    match url::Url::parse(s) {
        Ok(u) => Ok((u.as_str().to_string(), u.host_str().map(|h| h.to_string()))),
        Err(e) => Err(e.to_string()),
    }
}

/// How a refused Signal Server URL is reported.
pub open spec fn invalid_url_prefix() -> Seq<char> {
    "Invalid URL: "@
}

/// The Signal Server URL to connect to, as `url::Url` writes it; a URL that does
/// not parse is reported as `Invalid URL: ` and the parser's reason.
pub fn signal_url(url: &str) -> (r: Result<String, String>)
    ensures
        r is Ok <==> url_parse_of(url@) is Some,
        r matches Ok(t) ==> url_parse_of(url@) == Some(t@),
        r matches Err(e) ==> e@.len() >= invalid_url_prefix().len() && e@.subrange(
            0,
            invalid_url_prefix().len() as int,
        ) == invalid_url_prefix(),
{
    match parse_url(url) {
        Ok((t, _)) => Ok(t),
        Err(reason) => {
            let mut e = "Invalid URL: ".to_owned();
            push_str(&mut e, reason.as_str());
            assert(e@.subrange(0, invalid_url_prefix().len() as int) =~= invalid_url_prefix());
            Err(e)
        },
    }
}

/// The host named by a URL, if it parses and has one.
pub fn url_host(url: &str) -> (r: Option<String>)
    ensures
        r matches Some(h) ==> url_parse_of(url@) is Some && url_host_of(url@) == Some(h@),
        r is None ==> url_parse_of(url@) is None || url_host_of(url@) is None,
{
    match parse_url(url) {
        Ok((_, h)) => h,
        Err(_) => None,
    }
}

/// Messages between the peers and the Signal Server (JSON, tagged by `action`).
#[derive(Debug)]
pub enum SignalingMessage {
    RegisterHost { session_id: String },
    RegisterClient { session_id: String },
    SignalToClient { session_id: String, payload: String },
    SignalToHost { session_id: String, payload: String },
}

/// The message with which a peer announces itself for `session_id`.
pub fn registration_message(session_id: &String, is_host: bool) -> (m: SignalingMessage)
    ensures
        is_host ==> (m matches SignalingMessage::RegisterHost { session_id: s } && s@ == session_id@),
        !is_host ==> (m matches SignalingMessage::RegisterClient { session_id: s } && s@ == session_id@),
{
    if is_host {
        SignalingMessage::RegisterHost { session_id: session_id.clone() }
    } else {
        SignalingMessage::RegisterClient { session_id: session_id.clone() }
    }
}

/// The message that carries `payload` to the other side: a host signals the
/// client of its session, a client signals the host.
pub fn payload_message(session_id: &String, is_host: bool, payload: String) -> (m: SignalingMessage)
    ensures
        is_host ==> (m matches SignalingMessage::SignalToClient { session_id: s, payload: p }
            && s@ == session_id@ && p@ == payload@),
        !is_host ==> (m matches SignalingMessage::SignalToHost { session_id: s, payload: p }
            && s@ == session_id@ && p@ == payload@),
{
    if is_host {
        SignalingMessage::SignalToClient { session_id: session_id.clone(), payload }
    } else {
        SignalingMessage::SignalToHost { session_id: session_id.clone(), payload }
    }
}

/// The role that a WebSocket connection registered itself with.
#[derive(Debug, Clone, Copy, PartialEq, Eq, Structural)]
pub enum Role {
    Unregistered,
    Host,
    Client,
}

/// What the Signal Server remembers of one WebSocket connection: the session it
/// last registered for, and as what.
pub struct SocketSession {
    pub session_id: String,
    pub role: Role,
}

impl SocketSession {
    pub fn new() -> (s: Self)
        ensures
            s.session_id@ == Seq::<char>::empty(),
            s.role == Role::Unregistered,
    {
        SocketSession { session_id: String::new(), role: Role::Unregistered }
    }
}

/// The Signal Server's routing state: for each session, the connection (by its
/// number) of the host and that of the client that registered it.
pub struct SignalRouter {
    pub hosts: SessionTable,
    pub clients: SessionTable,
}

impl SignalRouter {
    pub fn new() -> (r: Self)
        ensures
            r.hosts.view() == Map::<Seq<char>, u64>::empty(),
            r.clients.view() == Map::<Seq<char>, u64>::empty(),
    {
        SignalRouter { hosts: SessionTable::new(), clients: SessionTable::new() }
    }

    /// Applies a registration received on the connection `sock`, whose number is
    /// `conn`. Signals change nothing here.
    pub fn register(&mut self, sock: &mut SocketSession, conn: u64, msg: &SignalingMessage)
        ensures
            final(self).hosts.view() == hosts_after(old(self).hosts.view(), conn, *msg),
            final(self).clients.view() == clients_after(old(self).clients.view(), conn, *msg),
            match *msg {
                SignalingMessage::RegisterHost { session_id: sid } => final(sock).session_id@ == sid@
                    && final(sock).role == Role::Host,
                SignalingMessage::RegisterClient { session_id: sid } => final(sock).session_id@
                    == sid@ && final(sock).role == Role::Client,
                _ => final(sock).session_id@ == old(sock).session_id@ && final(sock).role == old(
                    sock,
                ).role,
            },
    {
        match msg {
            SignalingMessage::RegisterHost { session_id } => {
                sock.session_id = session_id.clone();
                sock.role = Role::Host;
                self.hosts.insert(session_id.clone(), conn);
            },
            SignalingMessage::RegisterClient { session_id } => {
                sock.session_id = session_id.clone();
                sock.role = Role::Client;
                self.clients.insert(session_id.clone(), conn);
            },
            _ => {},
        }
    }

    /// The connection that a signal goes to: the client of the session for
    /// `SignalToClient`, its host for `SignalToHost`; `None` when that peer is
    /// not registered, and for registrations.
    pub fn destination(&self, msg: &SignalingMessage) -> (r: Option<u64>)
        ensures
            r == signal_target(self.hosts.view(), self.clients.view(), *msg),
    {
        match msg {
            SignalingMessage::SignalToClient { session_id, .. } => self.clients.get(session_id),
            SignalingMessage::SignalToHost { session_id, .. } => self.hosts.get(session_id),
            _ => None,
        }
    }

    /// Cleans up after the connection `sock` closed: the session it registered
    /// last is forgotten in the table of its role.
    pub fn disconnect(&mut self, sock: &SocketSession)
        ensures
            sock.session_id@.len() > 0 && sock.role == Role::Host ==> final(self).hosts.view()
                == old(self).hosts.view().remove(sock.session_id@) && final(self).clients.view()
                == old(self).clients.view(),
            sock.session_id@.len() > 0 && sock.role == Role::Client ==> final(self).clients.view()
                == old(self).clients.view().remove(sock.session_id@) && final(self).hosts.view()
                == old(self).hosts.view(),
            sock.session_id@.len() == 0 || sock.role == Role::Unregistered ==> final(self).hosts.view()
                == old(self).hosts.view() && final(self).clients.view() == old(self).clients.view(),
    {
        if !string_is_empty(&sock.session_id) {
            match sock.role {
                Role::Host => self.hosts.remove(&sock.session_id),
                Role::Client => self.clients.remove(&sock.session_id),
                Role::Unregistered => {},
            }
        }
    }
}

/// The hosts after a message: a host registration (re)binds its session to `tx`.
pub open spec fn hosts_after<V>(hosts: Map<Seq<char>, V>, tx: V, msg: SignalingMessage) -> Map<Seq<char>, V> {
    match msg {
        SignalingMessage::RegisterHost { session_id: sid } => hosts.insert(sid@, tx),
        _ => hosts,
    }
}

/// The clients after a message: a client registration (re)binds its session to `tx`.
pub open spec fn clients_after<V>(clients: Map<Seq<char>, V>, tx: V, msg: SignalingMessage) -> Map<Seq<char>, V> {
    match msg {
        SignalingMessage::RegisterClient { session_id: sid } => clients.insert(sid@, tx),
        _ => clients,
    }
}

/// Where a signal is delivered: to the registered client, or host, of its session.
pub open spec fn signal_target<V>(hosts: Map<Seq<char>, V>, clients: Map<Seq<char>, V>, msg: SignalingMessage) -> Option<V> {
    match msg {
        SignalingMessage::SignalToClient { session_id: sid, .. } => if clients.dom().contains(sid@) {
            Some(clients[sid@])
        } else {
            None
        },
        SignalingMessage::SignalToHost { session_id: sid, .. } => if hosts.dom().contains(sid@) {
            Some(hosts[sid@])
        } else {
            None
        },
        _ => None,
    }
}

/// Signals reach the peer that registered: once a host (client) has registered
/// for a session on channel `tx`, every signal to the host (client) of that
/// session is delivered on `tx`, whatever was registered before.
pub proof fn lemma_signals_reach_registered_peer<V>(
    hosts: Map<Seq<char>, V>,
    clients: Map<Seq<char>, V>,
    tx: V,
    reg: SignalingMessage,
    signal: SignalingMessage,
)
    ensures
        (reg matches SignalingMessage::RegisterHost { session_id: a } && signal matches SignalingMessage::SignalToHost { session_id: b, .. } && a@ == b@)
            ==> signal_target(hosts_after(hosts, tx, reg), clients_after(clients, tx, reg), signal) == Some(tx),
        (reg matches SignalingMessage::RegisterClient { session_id: a } && signal matches SignalingMessage::SignalToClient { session_id: b, .. } && a@ == b@)
            ==> signal_target(hosts_after(hosts, tx, reg), clients_after(clients, tx, reg), signal) == Some(tx),
{
}

/// Registering never disturbs other sessions: signals for any other session go
/// where they went before.
pub proof fn lemma_registration_is_local<V>(
    hosts: Map<Seq<char>, V>,
    clients: Map<Seq<char>, V>,
    tx: V,
    reg: SignalingMessage,
    signal: SignalingMessage,
)
    ensures
        (match reg {
            SignalingMessage::RegisterHost { session_id: a } => match signal {
                SignalingMessage::SignalToHost { session_id: b, .. } => a@ != b@,
                _ => true,
            },
            SignalingMessage::RegisterClient { session_id: a } => match signal {
                SignalingMessage::SignalToClient { session_id: b, .. } => a@ != b@,
                _ => true,
            },
            _ => true,
        }) ==> signal_target(hosts_after(hosts, tx, reg), clients_after(clients, tx, reg), signal)
            == signal_target(hosts, clients, signal),
{
}

/// After its connection closes, a registered host (client) receives nothing
/// more: signals for its session are not delivered until someone registers again.
pub proof fn lemma_disconnected_peer_receives_nothing<V>(
    hosts: Map<Seq<char>, V>,
    clients: Map<Seq<char>, V>,
    sid: Seq<char>,
    signal: SignalingMessage,
)
    ensures
        (signal matches SignalingMessage::SignalToHost { session_id: b, .. } && b@ == sid)
            ==> signal_target(hosts.remove(sid), clients, signal) is None,
        (signal matches SignalingMessage::SignalToClient { session_id: b, .. } && b@ == sid)
            ==> signal_target(hosts, clients.remove(sid), signal) is None,
{
}

} // verus!
