//! The tunnel session's connect phase as an explicit state machine.
//!
//! One `ConnectAttempt` covers one outer cycle's `Connecting` and
//! `Authenticating` states. The surrounding process performs the transport
//! connect and the public-key exchange, reports each outcome as a
//! [`ConnectEvent`], and obeys the returned [`ConnectAction`]: transport
//! failures are retried with the cycle's backoff schedule until it is
//! exhausted, while an authentication rejection is fatal at once, because
//! retrying an already-rejected credential cannot help.

use crate::backoff::{backoff_delay, backoff_delays, BackoffSchedule};
use vstd::prelude::*;
use vstd::seq_lib::*;

verus! {

/// Why one whole connect cycle gave up.
#[derive(Clone, Copy, Debug, PartialEq, Eq, Structural)]
pub enum ConnectFailure {
    /// Transport failures used up every delay of the cycle's schedule.
    RetriesExhausted,
    /// The server rejected the offered public key.
    AuthenticationRejected,
    /// The transport broke during the authentication exchange.
    AuthenticationBroken,
}

/// One outcome observed while establishing a session.
#[derive(Clone, Copy, Debug, PartialEq, Eq, Structural)]
pub enum ConnectEvent {
    /// The transport connect failed: refused, timed out or unreachable.
    TransportFailure,
    /// The transport connected; authentication may begin.
    Connected,
    /// The server accepted the public key.
    AuthAccepted,
    /// The server rejected the public key.
    AuthRejected,
    /// The transport broke while authenticating.
    AuthBroken,
}

/// Where a connect cycle stands.
#[derive(Clone, Copy, Debug, PartialEq, Eq, Structural)]
pub enum ConnectPhase {
    /// Opening the transport connection.
    Connecting,
    /// Offering the public key over the established transport.
    Authenticating,
    /// Authenticated; the session may request forwarding.
    Established,
    /// The cycle is over and failed for this reason.
    Failed(ConnectFailure),
}

/// What the caller must do after feeding one event in.
#[derive(Clone, Copy, Debug, PartialEq, Eq, Structural)]
pub enum ConnectAction {
    /// Suspend for this many seconds, then try the transport again.
    RetryAfter { delay_seconds: u64 },
    /// Offer the public key over the freshly connected transport.
    Authenticate,
    /// The session is authenticated: request forwarding.
    Proceed,
    /// The cycle is over; surface this failure.
    Fail(ConnectFailure),
    /// The event does not apply to the current phase; nothing changes.
    Ignore,
}

/// The mathematical state of a connect cycle: its phase and the attempt
/// number its schedule will charge next.
pub struct ConnectModel {
    pub phase: ConnectPhase,
    pub attempt: int,
}

/// A fresh cycle: connecting, with the schedule at its first attempt.
pub open spec fn connect_init() -> ConnectModel {
    ConnectModel { phase: ConnectPhase::Connecting, attempt: 1 }
}

/// The attempt counter starts at 1 and stops moving once the schedule has
/// answered its first exhausted attempt.
pub open spec fn connect_wf(m: ConnectModel) -> bool {
    1 <= m.attempt <= 6
}

/// The connect cycle's transition relation: the state after one event,
/// and the action the event demands.
pub open spec fn connect_next(m: ConnectModel, event: ConnectEvent) -> (ConnectModel, ConnectAction) {
    match (m.phase, event) {
        (ConnectPhase::Connecting, ConnectEvent::TransportFailure) => match backoff_delay(
            m.attempt,
        ) {
            Some(delay) => (
                ConnectModel { phase: ConnectPhase::Connecting, attempt: m.attempt + 1 },
                ConnectAction::RetryAfter { delay_seconds: delay },
            ),
            None => (
                ConnectModel {
                    phase: ConnectPhase::Failed(ConnectFailure::RetriesExhausted),
                    attempt: m.attempt,
                },
                ConnectAction::Fail(ConnectFailure::RetriesExhausted),
            ),
        },
        (ConnectPhase::Connecting, ConnectEvent::Connected) => (
            ConnectModel { phase: ConnectPhase::Authenticating, attempt: m.attempt },
            ConnectAction::Authenticate,
        ),
        (ConnectPhase::Authenticating, ConnectEvent::AuthAccepted) => (
            ConnectModel { phase: ConnectPhase::Established, attempt: m.attempt },
            ConnectAction::Proceed,
        ),
        (ConnectPhase::Authenticating, ConnectEvent::AuthRejected) => (
            ConnectModel {
                phase: ConnectPhase::Failed(ConnectFailure::AuthenticationRejected),
                attempt: m.attempt,
            },
            ConnectAction::Fail(ConnectFailure::AuthenticationRejected),
        ),
        (ConnectPhase::Authenticating, ConnectEvent::AuthBroken) => (
            ConnectModel {
                phase: ConnectPhase::Failed(ConnectFailure::AuthenticationBroken),
                attempt: m.attempt,
            },
            ConnectAction::Fail(ConnectFailure::AuthenticationBroken),
        ),
        _ => (m, ConnectAction::Ignore),
    }
}

/// One connect cycle of the tunnel session: drives `Connecting` and
/// `Authenticating`, consulting its own fresh backoff schedule.
#[derive(Clone, Copy)]
pub struct ConnectAttempt {
    phase: ConnectPhase,
    schedule: BackoffSchedule,
}

impl View for ConnectAttempt {
    type V = ConnectModel;

    closed spec fn view(&self) -> ConnectModel {
        ConnectModel { phase: self.phase, attempt: self.schedule@ }
    }
}

impl ConnectAttempt {
    /// The cycle's attempt counter stays within its schedule's range.
    pub open spec fn wf(self) -> bool {
        connect_wf(self@)
    }

    /// Starts a fresh cycle with a fresh schedule.
    pub fn new() -> (attempt: Self)
        ensures
            attempt.wf(),
            attempt@ == connect_init(),
    {
        ConnectAttempt { phase: ConnectPhase::Connecting, schedule: BackoffSchedule::new() }
    }

    /// The phase the cycle is in.
    pub fn phase(&self) -> (phase: ConnectPhase)
        ensures
            phase == self@.phase,
    {
        self.phase
    }

    /// Feeds one observed outcome in and returns what to do next, exactly
    /// as the transition relation [`connect_next`] prescribes.
    pub fn step(&mut self, event: ConnectEvent) -> (action: ConnectAction)
        requires
            old(self).wf(),
        ensures
            final(self).wf(),
            (final(self)@, action) == connect_next(old(self)@, event),
    {
        let phase = self.phase;
        match (phase, event) {
            (ConnectPhase::Connecting, ConnectEvent::TransportFailure) => {
                let granted = self.schedule.next_delay();
                match granted {
                    Some(delay) => ConnectAction::RetryAfter { delay_seconds: delay },
                    None => {
                        self.phase = ConnectPhase::Failed(ConnectFailure::RetriesExhausted);
                        ConnectAction::Fail(ConnectFailure::RetriesExhausted)
                    },
                }
            },
            (ConnectPhase::Connecting, ConnectEvent::Connected) => {
                self.phase = ConnectPhase::Authenticating;
                ConnectAction::Authenticate
            },
            (ConnectPhase::Authenticating, ConnectEvent::AuthAccepted) => {
                self.phase = ConnectPhase::Established;
                ConnectAction::Proceed
            },
            (ConnectPhase::Authenticating, ConnectEvent::AuthRejected) => {
                self.phase = ConnectPhase::Failed(ConnectFailure::AuthenticationRejected);
                ConnectAction::Fail(ConnectFailure::AuthenticationRejected)
            },
            (ConnectPhase::Authenticating, ConnectEvent::AuthBroken) => {
                self.phase = ConnectPhase::Failed(ConnectFailure::AuthenticationBroken);
                ConnectAction::Fail(ConnectFailure::AuthenticationBroken)
            },
            _ => ConnectAction::Ignore,
        }
    }
}

/// Runs the connect cycle over a whole sequence of events, collecting the
/// state it ends in and every delay it asked the caller to sleep.
pub open spec fn run_connect(m: ConnectModel, events: Seq<ConnectEvent>) -> (
    ConnectModel,
    Seq<u64>,
)
    decreases events.len(),
{
    if events.len() == 0 {
        (m, Seq::<u64>::empty())
    } else {
        let stepped = connect_next(m, events[0]);
        let rest = run_connect(stepped.0, events.skip(1));
        match stepped.1 {
            ConnectAction::RetryAfter { delay_seconds } => (
                rest.0,
                seq![delay_seconds] + rest.1,
            ),
            _ => rest,
        }
    }
}

/// A run of `k` consecutive transport failures.
pub open spec fn transport_failures(k: nat) -> Seq<ConnectEvent> {
    Seq::new(k, |i: int| ConnectEvent::TransportFailure)
}

/// A run over no events ends where it started and charges nothing.
proof fn lemma_run_connect_empty(m: ConnectModel)
    ensures
        run_connect(m, Seq::<ConnectEvent>::empty()) == (m, Seq::<u64>::empty()),
{
}

/// A run over a single event is that event's transition, charging its
/// delay if the event demanded one.
proof fn lemma_run_connect_single(m: ConnectModel, event: ConnectEvent)
    ensures
        run_connect(m, seq![event]).0 == connect_next(m, event).0,
        run_connect(m, seq![event]).1 =~= (match connect_next(m, event).1 {
            ConnectAction::RetryAfter { delay_seconds } => seq![delay_seconds],
            _ => Seq::<u64>::empty(),
        }),
{
    assert(seq![event][0] == event);
    assert(seq![event].skip(1) =~= Seq::<ConnectEvent>::empty());
    lemma_run_connect_empty(connect_next(m, event).0);
}

/// Splitting a run of events splits the run's delays in order.
proof fn lemma_run_connect_append(m: ConnectModel, s1: Seq<ConnectEvent>, s2: Seq<ConnectEvent>)
    ensures
        run_connect(m, s1 + s2).0 == run_connect(run_connect(m, s1).0, s2).0,
        run_connect(m, s1 + s2).1 == run_connect(m, s1).1 + run_connect(
            run_connect(m, s1).0,
            s2,
        ).1,
    decreases s1.len(),
{
    if s1.len() == 0 {
        assert(s1 + s2 =~= s2);
        assert(run_connect(m, s1).1 + run_connect(run_connect(m, s1).0, s2).1 =~= run_connect(
            m,
            s2,
        ).1);
    } else {
        let stepped = connect_next(m, s1[0]);
        assert((s1 + s2)[0] == s1[0]);
        assert((s1 + s2).skip(1) =~= s1.skip(1) + s2);
        lemma_run_connect_append(stepped.0, s1.skip(1), s2);
        match stepped.1 {
            ConnectAction::RetryAfter { delay_seconds } => {
                assert(seq![delay_seconds] + (run_connect(stepped.0, s1.skip(1)).1 + run_connect(
                    run_connect(m, s1).0,
                    s2,
                ).1) =~= (seq![delay_seconds] + run_connect(stepped.0, s1.skip(1)).1)
                    + run_connect(run_connect(m, s1).0, s2).1);
            },
            _ => {},
        }
    }
}

/// From a connecting state with `k` delays still available, `k` transport
/// failures keep the cycle connecting and charge the schedule's delays,
/// in order.
proof fn lemma_run_transport_failures(a: int, k: nat)
    requires
        1 <= a,
        a + k <= 6,
    ensures
        run_connect(ConnectModel { phase: ConnectPhase::Connecting, attempt: a }, transport_failures(k)).0
            == (ConnectModel { phase: ConnectPhase::Connecting, attempt: a + k }),
        run_connect(ConnectModel { phase: ConnectPhase::Connecting, attempt: a }, transport_failures(k)).1
            =~= Seq::new(k, |i: int| (2 * (a + i)) as u64),
    decreases k,
{
    let m = ConnectModel { phase: ConnectPhase::Connecting, attempt: a };
    if k == 0 {
        assert(run_connect(m, transport_failures(0)).1 =~= Seq::new(
            0,
            |i: int| (2 * (a + i)) as u64,
        ));
    } else {
        let events = transport_failures(k);
        assert(events[0] == ConnectEvent::TransportFailure);
        assert(backoff_delay(a) == Some((2 * a) as u64));
        let stepped = connect_next(m, events[0]);
        assert(stepped.0 == ConnectModel { phase: ConnectPhase::Connecting, attempt: a + 1 });
        assert(events.skip(1) =~= transport_failures((k - 1) as nat));
        lemma_run_transport_failures(a + 1, (k - 1) as nat);
        assert(run_connect(m, events).1 =~= Seq::new(k, |i: int| (2 * (a + i)) as u64)) by {
            assert(run_connect(m, events).1 == seq![(2 * a) as u64] + run_connect(
                stepped.0,
                transport_failures((k - 1) as nat),
            ).1);
            assert(run_connect(stepped.0, transport_failures((k - 1) as nat)).1 =~= Seq::new(
                (k - 1) as nat,
                |i: int| (2 * (a + 1 + i)) as u64,
            ));
        }
    }
}

/// Once a cycle has failed, further events change nothing and charge no
/// delay.
proof fn lemma_run_after_failure(m: ConnectModel, events: Seq<ConnectEvent>)
    requires
        (m.phase matches ConnectPhase::Failed(_)),
    ensures
        run_connect(m, events).0 == m,
        run_connect(m, events).1 =~= Seq::<u64>::empty(),
    decreases events.len(),
{
    if events.len() > 0 {
        assert(connect_next(m, events[0]) == (m, ConnectAction::Ignore));
        lemma_run_after_failure(m, events.skip(1));
    }
}

/// `k` consecutive transport failures with `k` at most 5, then a successful
/// transport connect: exactly `k` delays are charged, each the schedule's
/// delay for its attempt, and the cycle moves on to authenticating.
pub proof fn lemma_retries_then_connect(k: nat)
    requires
        k <= 5,
    ensures
        run_connect(connect_init(), transport_failures(k) + seq![ConnectEvent::Connected]).0
            == (ConnectModel { phase: ConnectPhase::Authenticating, attempt: k as int + 1 }),
        run_connect(connect_init(), transport_failures(k) + seq![ConnectEvent::Connected]).1.len()
            == k,
        forall|i: int|
            0 <= i < k ==> run_connect(
                connect_init(),
                transport_failures(k) + seq![ConnectEvent::Connected],
            ).1[i] == backoff_delays()[i],
{
    let m = connect_init();
    lemma_run_connect_append(m, transport_failures(k), seq![ConnectEvent::Connected]);
    lemma_run_transport_failures(1, k);
    let mid = ConnectModel { phase: ConnectPhase::Connecting, attempt: k as int + 1 };
    lemma_run_connect_single(mid, ConnectEvent::Connected);
    assert(run_connect(mid, seq![ConnectEvent::Connected]).0 == (ConnectModel {
        phase: ConnectPhase::Authenticating,
        attempt: k as int + 1,
    }));
    assert(run_connect(mid, seq![ConnectEvent::Connected]).1 =~= Seq::<u64>::empty());
    assert(run_connect(m, transport_failures(k) + seq![ConnectEvent::Connected]).1 =~= Seq::new(
        k,
        |i: int| (2 * (1 + i)) as u64,
    ));
}

/// More than 5 consecutive transport failures: the cycle fails with its
/// retries exhausted after charging exactly the schedule's five delays,
/// and no sixth delay is ever charged.
pub proof fn lemma_retries_exhausted(k: nat)
    requires
        k > 5,
    ensures
        run_connect(connect_init(), transport_failures(k)).0 == (ConnectModel {
            phase: ConnectPhase::Failed(ConnectFailure::RetriesExhausted),
            attempt: 6,
        }),
        run_connect(connect_init(), transport_failures(k)).1 =~= backoff_delays(),
{
    let m = connect_init();
    let head = transport_failures(5);
    let tail = transport_failures((k - 5) as nat);
    assert(transport_failures(k) =~= head + tail);
    lemma_run_connect_append(m, head, tail);
    lemma_run_transport_failures(1, 5);
    let mid = ConnectModel { phase: ConnectPhase::Connecting, attempt: 6 };
    assert(run_connect(m, head).0 == mid);
    assert(run_connect(m, head).1 =~= backoff_delays()) by {
        assert(run_connect(m, head).1 =~= Seq::new(5, |i: int| (2 * (1 + i)) as u64));
    }
    let failed = ConnectModel {
        phase: ConnectPhase::Failed(ConnectFailure::RetriesExhausted),
        attempt: 6,
    };
    assert(tail[0] == ConnectEvent::TransportFailure);
    assert(connect_next(mid, tail[0]) == (failed, ConnectAction::Fail(
        ConnectFailure::RetriesExhausted,
    )));
    lemma_run_after_failure(failed, tail.skip(1));
    assert(run_connect(m, transport_failures(k)).1 =~= backoff_delays());
}

/// The SSH extended-data stream code that carries the remote command's
/// standard error.
pub const STDERR_STREAM: u32 = 1;

/// Why the forwarding phase of a session broke.
#[derive(Clone, Copy, Debug, PartialEq, Eq, Structural)]
pub enum SessionFailure {
    /// The auxiliary channel ended without a close or exit-status message.
    UnexpectedChannelEnd,
    /// An unrecognized or out-of-sequence protocol message arrived.
    ProtocolViolation,
}

/// One protocol event observed while the session is forwarding: a new
/// forwarded connection, traffic on the auxiliary command channel, or the
/// server's authentication banner.
#[derive(Debug, PartialEq, Eq)]
pub enum SessionEvent {
    /// The remote accepted an inbound connection on the forwarded port and
    /// relayed it as a new channel.
    ConnectionOpened { originator_address: String, originator_port: u32 },
    /// The server sent an authentication banner to show the user.
    AuthBanner { banner: Vec<u8> },
    /// The remote command wrote to its standard output.
    AuxData { data: Vec<u8> },
    /// The remote command wrote to an extended stream with this code.
    AuxExtendedData { ext: u32, data: Vec<u8> },
    /// The auxiliary channel acknowledged a request.
    AuxSuccess,
    /// The auxiliary channel closed.
    AuxClosed,
    /// The remote command exited with this status.
    AuxExited { status: u32 },
    /// The auxiliary channel ended with no message at all.
    AuxEndOfStream,
    /// A message no handler recognizes.
    UnrecognizedMessage,
}

/// What the forwarding wait loop must do with one event.
#[derive(Debug, PartialEq, Eq)]
pub enum ForwardAction {
    /// Start an independent bridge task for the new connection; keep waiting.
    SpawnBridge { originator_address: String, originator_port: u32 },
    /// Write these bytes to local standard output; keep waiting.
    WriteStdout { data: Vec<u8> },
    /// Write these bytes to local standard error; keep waiting.
    WriteStderr { data: Vec<u8> },
    /// Nothing to do; keep waiting.
    KeepWaiting,
    /// Send end-of-file on the auxiliary channel; forwarding is over with
    /// this exit code.
    AcknowledgeExit { status: u32 },
    /// Forwarding is over with this exit code.
    Finish { status: u32 },
    /// The session broke; surface this failure. The outer loop decides what
    /// comes next, and running bridges are not torn down by it.
    Fail(SessionFailure),
}

/// The forwarding wait loop's single dispatch point, as a function: what
/// each event demands, with the event's bytes passed on untouched.
pub open spec fn spec_forwarding_step(event: SessionEvent) -> ForwardAction {
    match event {
        SessionEvent::ConnectionOpened { originator_address, originator_port } => (
            ForwardAction::SpawnBridge { originator_address, originator_port }
        ),
        SessionEvent::AuthBanner { banner } => ForwardAction::WriteStdout { data: banner },
        SessionEvent::AuxData { data } => ForwardAction::WriteStdout { data },
        SessionEvent::AuxExtendedData { ext, data } => if ext == STDERR_STREAM {
            ForwardAction::WriteStderr { data }
        } else {
            ForwardAction::Fail(SessionFailure::ProtocolViolation)
        },
        SessionEvent::AuxSuccess => ForwardAction::KeepWaiting,
        SessionEvent::AuxClosed => ForwardAction::Finish { status: 0 },
        SessionEvent::AuxExited { status } => ForwardAction::AcknowledgeExit { status },
        SessionEvent::AuxEndOfStream => ForwardAction::Fail(SessionFailure::UnexpectedChannelEnd),
        SessionEvent::UnrecognizedMessage => ForwardAction::Fail(SessionFailure::ProtocolViolation),
    }
}

/// Dispatches one event of the forwarding wait loop.
///
/// Standard output and standard error bytes, and a new connection's
/// originator data, pass through byte for byte. A connection open never
/// finishes or fails the wait: the bridge it spawns runs independently.
/// An extended stream other than the standard-error stream, like any
/// unrecognized message, is a protocol violation and fatal for the session
/// only, not for the bridges.
pub fn forwarding_step(event: SessionEvent) -> (action: ForwardAction)
    ensures
        action == spec_forwarding_step(event),
{
    match event {
        SessionEvent::ConnectionOpened { originator_address, originator_port } => (
            ForwardAction::SpawnBridge { originator_address, originator_port }
        ),
        SessionEvent::AuthBanner { banner } => ForwardAction::WriteStdout { data: banner },
        SessionEvent::AuxData { data } => ForwardAction::WriteStdout { data },
        SessionEvent::AuxExtendedData { ext, data } => {
            if ext == STDERR_STREAM {
                ForwardAction::WriteStderr { data }
            } else {
                ForwardAction::Fail(SessionFailure::ProtocolViolation)
            }
        },
        SessionEvent::AuxSuccess => ForwardAction::KeepWaiting,
        SessionEvent::AuxClosed => ForwardAction::Finish { status: 0 },
        SessionEvent::AuxExited { status } => ForwardAction::AcknowledgeExit { status },
        SessionEvent::AuxEndOfStream => ForwardAction::Fail(SessionFailure::UnexpectedChannelEnd),
        SessionEvent::UnrecognizedMessage => ForwardAction::Fail(SessionFailure::ProtocolViolation),
    }
}

/// The session's host-key policy: accept whatever key the server presents.
/// This reproduces the design's deliberate relaxation; it is not a safe
/// default, and a hardened deployment should pin the server's key instead.
pub fn check_server_key() -> (accepted: bool)
    ensures
        accepted,
{
    true
}

} // verus!
