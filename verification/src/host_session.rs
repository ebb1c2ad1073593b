use vstd::prelude::*;

verus! {

/// Where an incoming connection to the host stands.
#[derive(Debug, Clone, Copy, PartialEq, Eq, Structural)]
pub enum HostSession {
    /// The Zero-Trust handshake with the peer is under way.
    Authenticating,
    /// The peer proved that it knows the PIN; the user is asked to accept it.
    AwaitingConsent,
    /// The user accepted: the screen is streamed and the input injected.
    Streaming,
    /// The connection was refused.
    Closed,
}

/// What happened on an incoming connection.
#[derive(Debug, Clone, Copy, PartialEq, Eq, Structural)]
pub enum HostEvent {
    /// The peer's handshake proof was verified.
    HandshakeSucceeded,
    /// The handshake failed: wrong PIN, a man in the middle, or a broken stream.
    HandshakeFailed,
    /// The user accepted the connection.
    UserAccepted,
    /// The user rejected the connection, or the question went unanswered.
    UserRejected,
}

/// What the host does next.
#[derive(Debug, Clone, Copy, PartialEq, Eq, Structural)]
pub enum HostAction {
    /// Show the incoming connection to the user and wait for the answer.
    AskUser,
    /// Open the video stream and accept the input stream.
    OpenStreams,
    /// Drop the connection.
    Close,
    /// The event does not apply in this state: nothing changes.
    Ignore,
}

/// One step of an incoming connection: the handshake comes first, the user's
/// consent second, and only then are the streams opened.
pub open spec fn host_step_spec(s: HostSession, e: HostEvent) -> (HostSession, HostAction) {
    match (s, e) {
        (HostSession::Authenticating, HostEvent::HandshakeSucceeded) => (HostSession::AwaitingConsent, HostAction::AskUser),
        (HostSession::Authenticating, HostEvent::HandshakeFailed) => (HostSession::Closed, HostAction::Close),
        (HostSession::AwaitingConsent, HostEvent::UserAccepted) => (HostSession::Streaming, HostAction::OpenStreams),
        (HostSession::AwaitingConsent, HostEvent::UserRejected) => (HostSession::Closed, HostAction::Close),
        _ => (s, HostAction::Ignore),
    }
}

/// The state of a connection after `events`, from the start of the handshake.
pub open spec fn host_run(events: Seq<HostEvent>) -> HostSession
    decreases events.len(),
{
    if events.len() == 0 {
        HostSession::Authenticating
    } else {
        host_step_spec(host_run(events.drop_last()), events.last()).0
    }
}

/// The state in which every incoming connection starts.
pub fn host_session_start() -> (s: HostSession)
    ensures
        s == host_run(Seq::empty()),
{
    HostSession::Authenticating
}

/// The next state and the action for `event` in `state`.
pub fn host_session_step(state: HostSession, event: HostEvent) -> (r: (HostSession, HostAction))
    ensures
        r == host_step_spec(state, event),
{
    match (state, event) {
        (HostSession::Authenticating, HostEvent::HandshakeSucceeded) => (HostSession::AwaitingConsent, HostAction::AskUser),
        (HostSession::Authenticating, HostEvent::HandshakeFailed) => (HostSession::Closed, HostAction::Close),
        (HostSession::AwaitingConsent, HostEvent::UserAccepted) => (HostSession::Streaming, HostAction::OpenStreams),
        (HostSession::AwaitingConsent, HostEvent::UserRejected) => (HostSession::Closed, HostAction::Close),
        _ => (state, HostAction::Ignore),
    }
}

/// A connection waits for consent or streams only after a successful
/// handshake, and streams only after the user accepted it.
pub proof fn lemma_host_run_history(events: Seq<HostEvent>)
    ensures
        (host_run(events) == HostSession::AwaitingConsent || host_run(events) == HostSession::Streaming)
            ==> events.contains(HostEvent::HandshakeSucceeded),
        host_run(events) == HostSession::Streaming ==> events.contains(HostEvent::UserAccepted),
    decreases events.len(),
{
    if events.len() > 0 {
        let es = events.drop_last();
        lemma_host_run_history(es);
        assert(events == es.push(events.last()));
        if es.contains(HostEvent::HandshakeSucceeded) {
            let i = choose|i: int| 0 <= i < es.len() && es[i] == HostEvent::HandshakeSucceeded;
            assert(events[i] == HostEvent::HandshakeSucceeded);
        }
        if es.contains(HostEvent::UserAccepted) {
            let i = choose|i: int| 0 <= i < es.len() && es[i] == HostEvent::UserAccepted;
            assert(events[i] == HostEvent::UserAccepted);
        }
        assert(events[events.len() - 1] == events.last());
    }
}

/// Access control of incoming connections: whatever events came before, the
/// streams are opened only on the user's acceptance of a connection whose
/// handshake succeeded.
pub proof fn lemma_streams_need_handshake_and_consent(events: Seq<HostEvent>, e: HostEvent)
    ensures
        host_step_spec(host_run(events), e).1 == HostAction::OpenStreams ==> {
            &&& e == HostEvent::UserAccepted
            &&& events.contains(HostEvent::HandshakeSucceeded)
        },
{
    lemma_host_run_history(events);
}

/// A refused connection stays refused, whatever happens after.
pub proof fn lemma_closed_stays_closed(events: Seq<HostEvent>, more: Seq<HostEvent>)
    requires
        host_run(events) == HostSession::Closed,
    ensures
        host_run(events + more) == HostSession::Closed,
    decreases more.len(),
{
    if more.len() > 0 {
        lemma_closed_stays_closed(events, more.drop_last());
        assert((events + more).drop_last() == events + more.drop_last());
    } else {
        assert(events + more == events);
    }
}

} // verus!
