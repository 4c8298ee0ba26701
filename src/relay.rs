//! One relay endpoint: its connection state machine and the meaning of what
//! a send attempt reported.

use vstd::prelude::*;

verus! {

/// Lifecycle of one relay connection.
#[derive(Clone, Copy, Debug, PartialEq, Eq, Structural)]
pub enum ConnState {
    Disconnected,
    Connecting,
    Connected,
    Failed,
    Closed,
}

/// What happened to a connection, as observed by the caller.
#[derive(Clone, Copy, Debug, PartialEq, Eq, Structural)]
pub enum ConnEvent {
    ConnectRequested,
    HandshakeSucceeded,
    HandshakeFailed,
    TransportError,
    Shutdown,
}

/// Why a handshake did not complete.
#[derive(Clone, Copy, Debug, PartialEq, Eq, Structural)]
pub enum ConnectError {
    Unreachable,
    ProtocolMismatch,
    Timeout,
}

/// What the transport reported for one send attempt.
#[derive(Clone, Debug, PartialEq, Eq)]
pub enum SendReport {
    /// The relay acknowledged the message.
    Acked,
    /// The relay refused the message, with its own reason.
    Rejected(String),
    /// The transport failed while sending.
    TransportFailed,
    /// No acknowledgement came within the per-relay timeout.
    NoAck,
}

/// The outcome recorded for one relay in one publish.
#[derive(Clone, Debug, PartialEq, Eq)]
pub enum RelayResult {
    Sent,
    Rejected(String),
    Unreachable,
    TimedOut,
}

/// The state machine of a relay connection. `Closed` is terminal; an event
/// that does not apply to the current state leaves it unchanged.
pub open spec fn next_state(s: ConnState, e: ConnEvent) -> ConnState {
    match (s, e) {
        (ConnState::Closed, _) => ConnState::Closed,
        (_, ConnEvent::Shutdown) => ConnState::Closed,
        (ConnState::Disconnected, ConnEvent::ConnectRequested) => ConnState::Connecting,
        (ConnState::Failed, ConnEvent::ConnectRequested) => ConnState::Connecting,
        (ConnState::Connecting, ConnEvent::HandshakeSucceeded) => ConnState::Connected,
        (ConnState::Connecting, ConnEvent::HandshakeFailed) => ConnState::Failed,
        (ConnState::Connected, ConnEvent::TransportError) => ConnState::Failed,
        _ => s,
    }
}

/// A connection in this state may be asked to connect (initially, or as a
/// reconnect after a failure).
pub open spec fn may_connect(s: ConnState) -> bool {
    s == ConnState::Disconnected || s == ConnState::Failed
}

/// The result recorded for a relay in `s` given what its send reported
/// (`None`: nothing came back before the per-relay timeout). A relay that is
/// not connected is `Unreachable` and its report, if any, is ignored.
pub open spec fn result_for(s: ConnState, report: Option<SendReport>) -> RelayResult {
    if s != ConnState::Connected {
        RelayResult::Unreachable
    } else {
        match report {
            None => RelayResult::TimedOut,
            Some(SendReport::NoAck) => RelayResult::TimedOut,
            Some(SendReport::Acked) => RelayResult::Sent,
            Some(SendReport::Rejected(reason)) => RelayResult::Rejected(reason),
            Some(SendReport::TransportFailed) => RelayResult::Unreachable,
        }
    }
}

/// The state of a relay in `s` after its send reported `report`: only a
/// transport failure on a connected relay changes it.
pub open spec fn state_after_send(s: ConnState, report: Option<SendReport>) -> ConnState {
    if s == ConnState::Connected && report == Some(SendReport::TransportFailed) {
        ConnState::Failed
    } else {
        s
    }
}

/// Applies one event to a connection state.
pub fn transition(s: ConnState, e: ConnEvent) -> (r: ConnState)
    ensures
        r == next_state(s, e),
{
    match (s, e) {
        (ConnState::Closed, _) => ConnState::Closed,
        (_, ConnEvent::Shutdown) => ConnState::Closed,
        (ConnState::Disconnected, ConnEvent::ConnectRequested) => ConnState::Connecting,
        (ConnState::Failed, ConnEvent::ConnectRequested) => ConnState::Connecting,
        (ConnState::Connecting, ConnEvent::HandshakeSucceeded) => ConnState::Connected,
        (ConnState::Connecting, ConnEvent::HandshakeFailed) => ConnState::Failed,
        (ConnState::Connected, ConnEvent::TransportError) => ConnState::Failed,
        _ => s,
    }
}

/// Whether a send report is a transport failure.
fn is_transport_failure(report: &Option<SendReport>) -> (r: bool)
    ensures
        r == (*report == Some(SendReport::TransportFailed)),
{
    match report {
        Some(SendReport::TransportFailed) => true,
        _ => false,
    }
}

/// The result to record for a relay in state `s` whose send reported `report`.
pub fn classify_send(s: ConnState, report: &Option<SendReport>) -> (r: RelayResult)
    ensures
        r == result_for(s, *report),
{
    if s != ConnState::Connected {
        RelayResult::Unreachable
    } else {
        match report {
            None => RelayResult::TimedOut,
            Some(SendReport::NoAck) => RelayResult::TimedOut,
            Some(SendReport::Acked) => RelayResult::Sent,
            Some(SendReport::Rejected(reason)) => RelayResult::Rejected(reason.clone()),
            Some(SendReport::TransportFailed) => RelayResult::Unreachable,
        }
    }
}

/// The state of a relay in `s` after its send reported `report`.
pub fn settle_after_send(s: ConnState, report: &Option<SendReport>) -> (r: ConnState)
    ensures
        r == state_after_send(s, *report),
{
    if s == ConnState::Connected && is_transport_failure(report) {
        ConnState::Failed
    } else {
        s
    }
}

/// One relay endpoint. Its identity is its URL, stored case-normalized.
pub struct RelayConnection {
    pub url: String,
    pub state: ConnState,
}

impl View for RelayConnection {
    type V = (Seq<char>, ConnState);

    open spec fn view(&self) -> (Seq<char>, ConnState) {
        (self.url@, self.state)
    }
}

impl RelayConnection {
    /// A new connection to `url`, not yet connected.
    pub fn new(url: String) -> (r: RelayConnection)
        ensures
            r@ == (url@, ConnState::Disconnected),
    {
        RelayConnection { url, state: ConnState::Disconnected }
    }

    pub fn url(&self) -> (r: &String)
        ensures
            r@ == self@.0,
    {
        &self.url
    }

    pub fn state(&self) -> (r: ConnState)
        ensures
            r == self@.1,
    {
        self.state
    }

    /// Applies `e` to this connection's state; the URL is kept.
    pub fn apply(&mut self, e: ConnEvent)
        ensures
            final(self)@ == (old(self)@.0, next_state(old(self)@.1, e)),
    {
        self.state = transition(self.state, e);
    }

    /// Records the outcome of a handshake started by a connect request.
    pub fn finish_connect(&mut self, outcome: &Result<(), ConnectError>)
        ensures
            final(self)@ == (old(self)@.0, next_state(
                old(self)@.1,
                if outcome.is_ok() {
                    ConnEvent::HandshakeSucceeded
                } else {
                    ConnEvent::HandshakeFailed
                },
            )),
    {
        match outcome {
            Ok(()) => self.apply(ConnEvent::HandshakeSucceeded),
            Err(_) => self.apply(ConnEvent::HandshakeFailed),
        }
    }

    /// Records what a send attempt reported and returns the relay's result.
    pub fn record_send(&mut self, report: &Option<SendReport>) -> (r: RelayResult)
        ensures
            r == result_for(old(self)@.1, *report),
            final(self)@ == (old(self)@.0, state_after_send(old(self)@.1, *report)),
    {
        let r = classify_send(self.state, report);
        self.state = settle_after_send(self.state, report);
        r
    }
}

} // verus!
