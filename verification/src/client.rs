//! The outer tunnel client: the control loop that keeps the tunnel alive.
//!
//! Each cycle starts a fresh connect attempt with a fresh backoff schedule,
//! authenticates, forwards until the session ends, attempts a best-effort
//! graceful disconnect, and then starts over — unconditionally. A failed
//! cycle, whether its retries ran out or its credential was rejected, is
//! surfaced and then followed at once by a new cycle: the client favors
//! eventual availability over giving up, and never lets a stale schedule
//! from a previous cycle starve the next one.

use crate::session::{
    connect_init, connect_next, connect_wf, ConnectAction, ConnectAttempt, ConnectEvent,
    ConnectFailure, ConnectModel, ConnectPhase, SessionFailure,
};
use vstd::prelude::*;

verus! {

/// Where the client's current cycle stands.
pub enum ClientPhase {
    /// Establishing an authenticated session; the cycle's connect machine
    /// carries its own fresh schedule.
    Connecting(ConnectModel),
    /// A session is established and forwarding.
    Forwarding,
    /// The session ended; a graceful disconnect is being attempted.
    Closing,
}

/// One outcome observed by the outer loop.
#[derive(Clone, Copy, Debug, PartialEq, Eq)]
pub enum ClientEvent {
    /// An outcome of the current connect cycle.
    Connect(ConnectEvent),
    /// The forwarding phase ended, with the auxiliary channel's exit code
    /// or with a session failure.
    ForwardingEnded(Result<u32, SessionFailure>),
    /// The graceful-disconnect attempt finished, well or badly.
    Disconnected { graceful: bool },
}

/// What the outer loop must do after feeding one event in.
#[derive(Clone, Copy, Debug, PartialEq, Eq)]
pub enum ClientAction {
    /// Suspend for this many seconds, then try the transport again.
    RetryAfter { delay_seconds: u64 },
    /// Offer the public key over the freshly connected transport.
    Authenticate,
    /// Request remote forwarding and enter the session's wait loop.
    StartForwarding,
    /// Surface this cycle's failure, then begin a new connect cycle at
    /// once, with a fresh schedule and no delay owed from the old one.
    Restart(ConnectFailure),
    /// Attempt the best-effort graceful disconnect.
    Disconnect,
    /// Begin the next connect cycle with a fresh schedule.
    Reconnect,
    /// The event does not apply to the current phase; nothing changes.
    Ignore,
}

/// A fresh client begins its first cycle.
pub open spec fn client_init() -> ClientPhase {
    ClientPhase::Connecting(connect_init())
}

/// Whatever phase the client is in, its connect machine (if any) is well
/// formed.
pub open spec fn client_wf(phase: ClientPhase) -> bool {
    match phase {
        ClientPhase::Connecting(m) => connect_wf(m),
        _ => true,
    }
}

/// The outer loop's transition relation. Connect outcomes are delegated to
/// the cycle's connect machine; any cycle failure — retries exhausted or
/// authentication rejected alike — leads straight back to a fresh cycle;
/// the end of forwarding always leads to the disconnect attempt; and the
/// disconnect attempt's own outcome, graceful or not, never keeps the next
/// cycle from beginning.
pub open spec fn client_next(phase: ClientPhase, event: ClientEvent) -> (
    ClientPhase,
    ClientAction,
) {
    match (phase, event) {
        (ClientPhase::Connecting(m), ClientEvent::Connect(connect_event)) => {
            let stepped = connect_next(m, connect_event);
            match stepped.1 {
                ConnectAction::RetryAfter { delay_seconds } => (
                    ClientPhase::Connecting(stepped.0),
                    ClientAction::RetryAfter { delay_seconds },
                ),
                ConnectAction::Authenticate => (
                    ClientPhase::Connecting(stepped.0),
                    ClientAction::Authenticate,
                ),
                ConnectAction::Proceed => (ClientPhase::Forwarding, ClientAction::StartForwarding),
                ConnectAction::Fail(failure) => (
                    ClientPhase::Connecting(connect_init()),
                    ClientAction::Restart(failure),
                ),
                ConnectAction::Ignore => (ClientPhase::Connecting(stepped.0), ClientAction::Ignore),
            }
        },
        (ClientPhase::Forwarding, ClientEvent::ForwardingEnded(_)) => (
            ClientPhase::Closing,
            ClientAction::Disconnect,
        ),
        (ClientPhase::Closing, ClientEvent::Disconnected { .. }) => (
            ClientPhase::Connecting(connect_init()),
            ClientAction::Reconnect,
        ),
        _ => (phase, ClientAction::Ignore),
    }
}

/// The client's concrete state: the current cycle's connect machine while
/// connecting, or the later phase it has reached.
#[derive(Clone, Copy)]
enum ClientState {
    Connecting(ConnectAttempt),
    Forwarding,
    Closing,
}

/// The outer tunnel client. It owns one cycle at a time; the surrounding
/// process reports each observed outcome and obeys the returned action.
pub struct TunnelClient {
    state: ClientState,
}

impl View for TunnelClient {
    type V = ClientPhase;

    closed spec fn view(&self) -> ClientPhase {
        match self.state {
            ClientState::Connecting(attempt) => ClientPhase::Connecting(attempt@),
            ClientState::Forwarding => ClientPhase::Forwarding,
            ClientState::Closing => ClientPhase::Closing,
        }
    }
}

impl TunnelClient {
    /// The current cycle's machine is well formed.
    pub open spec fn wf(self) -> bool {
        client_wf(self@)
    }

    /// A fresh client, about to begin its first connect cycle.
    pub fn new() -> (client: Self)
        ensures
            client.wf(),
            client@ == client_init(),
    {
        TunnelClient { state: ClientState::Connecting(ConnectAttempt::new()) }
    }

    /// Feeds one observed outcome in and returns what to do next, exactly
    /// as the transition relation [`client_next`] prescribes.
    pub fn step(&mut self, event: ClientEvent) -> (action: ClientAction)
        requires
            old(self).wf(),
        ensures
            final(self).wf(),
            (final(self)@, action) == client_next(old(self)@, event),
    {
        match (self.state, event) {
            (ClientState::Connecting(attempt), ClientEvent::Connect(connect_event)) => {
                let mut inner = attempt;
                let inner_action = inner.step(connect_event);
                match inner_action {
                    ConnectAction::RetryAfter { delay_seconds } => {
                        self.state = ClientState::Connecting(inner);
                        ClientAction::RetryAfter { delay_seconds }
                    },
                    ConnectAction::Authenticate => {
                        self.state = ClientState::Connecting(inner);
                        ClientAction::Authenticate
                    },
                    ConnectAction::Proceed => {
                        self.state = ClientState::Forwarding;
                        ClientAction::StartForwarding
                    },
                    ConnectAction::Fail(failure) => {
                        self.state = ClientState::Connecting(ConnectAttempt::new());
                        ClientAction::Restart(failure)
                    },
                    ConnectAction::Ignore => {
                        self.state = ClientState::Connecting(inner);
                        ClientAction::Ignore
                    },
                }
            },
            (ClientState::Forwarding, ClientEvent::ForwardingEnded(_)) => {
                self.state = ClientState::Closing;
                ClientAction::Disconnect
            },
            (ClientState::Closing, ClientEvent::Disconnected { .. }) => {
                self.state = ClientState::Connecting(ConnectAttempt::new());
                ClientAction::Reconnect
            },
            _ => ClientAction::Ignore,
        }
    }
}

/// Any failed connect cycle — retries exhausted, the credential rejected,
/// or the transport broken during authentication — puts the client straight
/// into a fresh cycle with a fresh schedule, surfacing that failure.
pub proof fn lemma_failure_restarts_fresh(m: ConnectModel, event: ConnectEvent, failure: ConnectFailure)
    requires
        connect_next(m, event).1 == ConnectAction::Fail(failure),
    ensures
        client_next(ClientPhase::Connecting(m), ClientEvent::Connect(event)) == (
            ClientPhase::Connecting(connect_init()),
            ClientAction::Restart(failure),
        ),
{
}

/// An authentication rejection never delays the next cycle: the client
/// restarts at once with a fresh schedule, and the action it returns
/// demands no delay, so reconnection is never starved by a stale schedule
/// from the rejected attempt.
pub proof fn lemma_auth_rejection_restarts_undelayed(m: ConnectModel)
    requires
        m.phase is Authenticating,
    ensures
        client_next(ClientPhase::Connecting(m), ClientEvent::Connect(ConnectEvent::AuthRejected))
            == (
            ClientPhase::Connecting(connect_init()),
            ClientAction::Restart(ConnectFailure::AuthenticationRejected),
        ),
        !(client_next(
            ClientPhase::Connecting(m),
            ClientEvent::Connect(ConnectEvent::AuthRejected),
        ).1 matches ClientAction::RetryAfter { .. }),
{
}

/// However the forwarding phase ended — cleanly, with a session failure, or
/// with a protocol violation — the client proceeds to the disconnect
/// attempt.
pub proof fn lemma_forwarding_end_always_closes(outcome: Result<u32, SessionFailure>)
    ensures
        client_next(ClientPhase::Forwarding, ClientEvent::ForwardingEnded(outcome)) == (
            ClientPhase::Closing,
            ClientAction::Disconnect,
        ),
{
}

/// A failed graceful disconnect does not keep the client from its next
/// cycle: whatever the disconnect attempt's outcome, the client begins a
/// fresh connect cycle with a fresh schedule.
pub proof fn lemma_disconnect_failure_still_reconnects(graceful: bool)
    ensures
        client_next(ClientPhase::Closing, ClientEvent::Disconnected { graceful }) == (
            ClientPhase::Connecting(connect_init()),
            ClientAction::Reconnect,
        ),
{
}

} // verus!
