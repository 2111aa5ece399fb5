use vstd::prelude::*;

verus! {

/// The states one accepted connection passes through. Every connection is
/// independent: nothing here is shared between connections, so one
/// connection's failure cannot touch another.
#[derive(Debug, Clone, Copy, PartialEq, Eq, Structural)]
pub enum ConnState {
    /// The socket was accepted; nothing has happened yet.
    Accepted,
    /// The TLS handshake is running.
    Handshaking,
    /// The handshake succeeded; the backend dial is running.
    Dialing,
    /// Both streams are up; bytes are copied in both directions.
    Relaying,
    /// Terminal: the connection's resources are released.
    Closed,
}

/// What the engine observes about a connection.
#[derive(Debug, Clone, Copy, PartialEq, Eq, Structural)]
pub enum ConnEvent {
    /// The connection was picked up by its own execution unit.
    Begin,
    /// The TLS handshake completed.
    HandshakeOk,
    /// The TLS handshake failed.
    HandshakeFailed,
    /// The plaintext connection to the backend is open.
    DialOk,
    /// The backend could not be reached.
    DialFailed,
    /// One side closed cleanly; the relay is over.
    RelayDone,
    /// An I/O error ended the relay.
    RelayFailed,
}

/// What the engine must do next with the connection.
#[derive(Debug, Clone, Copy, PartialEq, Eq, Structural)]
pub enum ConnAction {
    /// Drive the TLS handshake on the accepted socket.
    StartHandshake,
    /// Open a plaintext connection to the backend address.
    DialBackend,
    /// Copy bytes in both directions until either side ends.
    RelayStreams,
    /// Close whatever streams the connection holds.
    CloseConnection,
}

/// The per-connection state machine: a handshake failure, a dial failure and
/// the end of the relay (clean or not) all close the connection; there is no
/// retry. An event that does not belong to the state also closes the
/// connection, and Closed is terminal.
pub open spec fn spec_conn_step(s: ConnState, e: ConnEvent) -> (ConnState, ConnAction) {
    match (s, e) {
        (ConnState::Accepted, ConnEvent::Begin) => (
            ConnState::Handshaking,
            ConnAction::StartHandshake,
        ),
        (ConnState::Handshaking, ConnEvent::HandshakeOk) => (
            ConnState::Dialing,
            ConnAction::DialBackend,
        ),
        (ConnState::Handshaking, ConnEvent::HandshakeFailed) => (
            ConnState::Closed,
            ConnAction::CloseConnection,
        ),
        (ConnState::Dialing, ConnEvent::DialOk) => (ConnState::Relaying, ConnAction::RelayStreams),
        (ConnState::Dialing, ConnEvent::DialFailed) => (
            ConnState::Closed,
            ConnAction::CloseConnection,
        ),
        (ConnState::Relaying, ConnEvent::RelayDone) => (
            ConnState::Closed,
            ConnAction::CloseConnection,
        ),
        (ConnState::Relaying, ConnEvent::RelayFailed) => (
            ConnState::Closed,
            ConnAction::CloseConnection,
        ),
        _ => (ConnState::Closed, ConnAction::CloseConnection),
    }
}

/// Advance one connection by one observed event, returning the next state
/// and what to do. Pure: connections in different execution units cannot
/// influence each other through it.
pub fn conn_step(s: ConnState, e: ConnEvent) -> (r: (ConnState, ConnAction))
    ensures
        r == spec_conn_step(s, e),
{
    match (s, e) {
        (ConnState::Accepted, ConnEvent::Begin) => (
            ConnState::Handshaking,
            ConnAction::StartHandshake,
        ),
        (ConnState::Handshaking, ConnEvent::HandshakeOk) => (
            ConnState::Dialing,
            ConnAction::DialBackend,
        ),
        (ConnState::Dialing, ConnEvent::DialOk) => (ConnState::Relaying, ConnAction::RelayStreams),
        _ => (ConnState::Closed, ConnAction::CloseConnection),
    }
}

/// How far along its life a connection is.
pub open spec fn state_rank(s: ConnState) -> int {
    match s {
        ConnState::Accepted => 0,
        ConnState::Handshaking => 1,
        ConnState::Dialing => 2,
        ConnState::Relaying => 3,
        ConnState::Closed => 4,
    }
}

/// A closed connection stays closed: no event revives it, and the only thing
/// left to do is release its resources.
pub proof fn lemma_closed_is_terminal(e: ConnEvent)
    ensures
        spec_conn_step(ConnState::Closed, e).0 is Closed,
        spec_conn_step(ConnState::Closed, e).1 is CloseConnection,
{
}

/// A connection only moves forward: every step strictly raises its rank
/// until it is closed, so each connection takes finitely many steps and
/// never returns to an earlier stage.
pub proof fn lemma_conn_progress(s: ConnState, e: ConnEvent)
    ensures
        s !is Closed ==> state_rank(spec_conn_step(s, e).0) > state_rank(s),
{
}

/// Within one connection the stages are ordered: relaying begins only after
/// a successful backend dial, and the dial begins only after a successful
/// handshake.
pub proof fn lemma_relay_order(s: ConnState, e: ConnEvent)
    ensures
        spec_conn_step(s, e).0 is Relaying ==> s is Dialing && e is DialOk,
        spec_conn_step(s, e).0 is Dialing ==> s is Handshaking && e is HandshakeOk,
{
}

} // verus!
