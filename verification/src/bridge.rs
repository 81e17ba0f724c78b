//! The per-connection channel bridge.
//!
//! One [`ForwardedConnection`] stands for one inbound connection the remote
//! host accepted on the forwarded port and relayed as a channel. The bridge
//! adapts that channel's byte stream into an HTTP connection for the request
//! service: bytes from the channel queue up for the service, bytes from the
//! service queue up for the channel, and neither direction reorders,
//! duplicates or drops a byte. Each bridge is exclusively owned by its own
//! task; nothing here is shared between two connections, so one bridge's
//! fate never touches another's.

use vstd::prelude::*;

verus! {

/// What has become of one forwarded connection's channel.
#[derive(Clone, Copy, Debug, PartialEq, Eq, Structural)]
pub enum BridgeState {
    /// The channel is open and the bridge is serving it.
    Serving,
    /// The channel reported end-of-stream; the bridge is finished.
    Closed,
    /// The channel broke, possibly mid-request. The failure is local to
    /// this one connection and does not crash the bridge's owner.
    Broken,
}

/// The mathematical state of one bridge: the connection's originator, the
/// bytes queued in each direction, and the channel's fate.
pub struct BridgeModel {
    pub originator_address: Seq<char>,
    pub originator_port: u32,
    pub inbound: Seq<u8>,
    pub outbound: Seq<u8>,
    pub state: BridgeState,
}

/// Bytes arriving from the channel join the back of the request queue;
/// nothing else moves.
pub open spec fn spec_receive(m: BridgeModel, data: Seq<u8>) -> BridgeModel {
    BridgeModel {
        originator_address: m.originator_address,
        originator_port: m.originator_port,
        inbound: m.inbound + data,
        outbound: m.outbound,
        state: m.state,
    }
}

/// The service side drains the whole request queue, in arrival order.
pub open spec fn spec_take_inbound(m: BridgeModel) -> (BridgeModel, Seq<u8>) {
    (
        BridgeModel {
            originator_address: m.originator_address,
            originator_port: m.originator_port,
            inbound: Seq::empty(),
            outbound: m.outbound,
            state: m.state,
        },
        m.inbound,
    )
}

/// Response bytes join the back of the channel queue while the channel is
/// open; once it has closed or broken they are refused and nothing moves.
pub open spec fn spec_send(m: BridgeModel, data: Seq<u8>) -> BridgeModel {
    if m.state is Serving {
        BridgeModel {
            originator_address: m.originator_address,
            originator_port: m.originator_port,
            inbound: m.inbound,
            outbound: m.outbound + data,
            state: m.state,
        }
    } else {
        m
    }
}

/// The channel side drains the whole response queue, in write order.
pub open spec fn spec_take_outbound(m: BridgeModel) -> (BridgeModel, Seq<u8>) {
    (
        BridgeModel {
            originator_address: m.originator_address,
            originator_port: m.originator_port,
            inbound: m.inbound,
            outbound: Seq::empty(),
            state: m.state,
        },
        m.outbound,
    )
}

/// One forwarded connection, owned by its bridge task: originator metadata
/// and the bytes queued between the channel and the request service.
pub struct ForwardedConnection {
    originator_address: String,
    originator_port: u32,
    inbound: Vec<u8>,
    outbound: Vec<u8>,
    state: BridgeState,
}

impl View for ForwardedConnection {
    type V = BridgeModel;

    closed spec fn view(&self) -> BridgeModel {
        BridgeModel {
            originator_address: self.originator_address@,
            originator_port: self.originator_port,
            inbound: self.inbound@,
            outbound: self.outbound@,
            state: self.state,
        }
    }
}

impl ForwardedConnection {
    /// A freshly opened connection: both queues empty, channel open.
    pub fn new(originator_address: String, originator_port: u32) -> (conn: Self)
        ensures
            conn@ == (BridgeModel {
                originator_address: originator_address@,
                originator_port,
                inbound: Seq::<u8>::empty(),
                outbound: Seq::<u8>::empty(),
                state: BridgeState::Serving,
            }),
    {
        ForwardedConnection {
            originator_address,
            originator_port,
            inbound: Vec::new(),
            outbound: Vec::new(),
            state: BridgeState::Serving,
        }
    }

    /// The port the remote peer connected from.
    pub fn originator_port(&self) -> (port: u32)
        ensures
            port == self@.originator_port,
    {
        self.originator_port
    }

    /// The address the remote peer connected from.
    pub fn originator_address(&self) -> (address: &String)
        ensures
            address@ == self@.originator_address,
    {
        &self.originator_address
    }

    /// The channel's fate so far.
    pub fn state(&self) -> (state: BridgeState)
        ensures
            state == self@.state,
    {
        self.state
    }

    /// Bytes arrived on the open channel: they join the request queue in
    /// order, byte for byte.
    pub fn receive(&mut self, data: Vec<u8>)
        requires
            (old(self)@.state is Serving),
        ensures
            final(self)@ == spec_receive(old(self)@, data@),
    {
        let mut incoming = data;
        self.inbound.append(&mut incoming);
    }

    /// The service side takes every pending request byte, in arrival order.
    pub fn take_inbound(&mut self) -> (taken: Vec<u8>)
        ensures
            final(self)@ == spec_take_inbound(old(self)@).0,
            taken@ == spec_take_inbound(old(self)@).1,
    {
        let taken = self.inbound.split_off(0);
        proof {
            assert(self.inbound@ =~= Seq::<u8>::empty());
            assert(taken@ =~= old(self)@.inbound);
        }
        taken
    }

    /// The service wrote response bytes. While the channel is open they
    /// join the channel queue in order and are accepted; a write after the
    /// channel has closed or broken is refused, a connection error for this
    /// one bridge and nothing more.
    pub fn send(&mut self, data: Vec<u8>) -> (accepted: bool)
        ensures
            final(self)@ == spec_send(old(self)@, data@),
            accepted == (old(self)@.state is Serving),
    {
        match self.state {
            BridgeState::Serving => {
                let mut outgoing = data;
                self.outbound.append(&mut outgoing);
                true
            },
            _ => false,
        }
    }

    /// The channel side takes every pending response byte, in write order.
    pub fn take_outbound(&mut self) -> (taken: Vec<u8>)
        ensures
            final(self)@ == spec_take_outbound(old(self)@).0,
            taken@ == spec_take_outbound(old(self)@).1,
    {
        let taken = self.outbound.split_off(0);
        proof {
            assert(self.outbound@ =~= Seq::<u8>::empty());
            assert(taken@ =~= old(self)@.outbound);
        }
        taken
    }

    /// The channel reported end-of-stream: the bridge is finished, and the
    /// queued bytes are left exactly as they were.
    pub fn channel_closed(&mut self)
        requires
            (old(self)@.state is Serving),
        ensures
            final(self)@ == (BridgeModel { state: BridgeState::Closed, ..old(self)@ }),
    {
        self.state = BridgeState::Closed;
    }

    /// The channel broke, possibly mid-request: a connection error local to
    /// this bridge, with the queued bytes left exactly as they were.
    pub fn channel_broken(&mut self)
        requires
            (old(self)@.state is Serving),
        ensures
            final(self)@ == (BridgeModel { state: BridgeState::Broken, ..old(self)@ }),
    {
        self.state = BridgeState::Broken;
    }
}

/// A fixed request payload delivered over the channel reaches the service
/// identically: with no request bytes pending, receiving a payload and then
/// taking the request queue yields that payload, byte for byte, and leaves
/// the queue empty again.
pub proof fn lemma_request_round_trip(m: BridgeModel, payload: Seq<u8>)
    requires
        m.inbound.len() == 0,
    ensures
        spec_take_inbound(spec_receive(m, payload)).1 == payload,
        spec_take_inbound(spec_receive(m, payload)).0 == (BridgeModel {
            inbound: Seq::<u8>::empty(),
            ..m
        }),
{
    assert(m.inbound + payload =~= payload);
}

/// A fixed response written by the service goes back over the channel
/// unmodified: with no response bytes pending on an open channel, sending a
/// response and then taking the channel queue yields that response, byte
/// for byte, and leaves the queue empty again.
pub proof fn lemma_response_round_trip(m: BridgeModel, payload: Seq<u8>)
    requires
        m.outbound.len() == 0,
        (m.state is Serving),
    ensures
        spec_take_outbound(spec_send(m, payload)).1 == payload,
        spec_take_outbound(spec_send(m, payload)).0 == (BridgeModel {
            outbound: Seq::<u8>::empty(),
            ..m
        }),
{
    assert(m.outbound + payload =~= payload);
}

/// A whole run of data chunks arriving from the channel.
pub open spec fn spec_receive_all(m: BridgeModel, chunks: Seq<Seq<u8>>) -> BridgeModel
    decreases chunks.len(),
{
    if chunks.len() == 0 {
        m
    } else {
        spec_receive_all(spec_receive(m, chunks[0]), chunks.skip(1))
    }
}

/// The bytes of a run of chunks, in arrival order.
pub open spec fn concat_chunks(chunks: Seq<Seq<u8>>) -> Seq<u8>
    decreases chunks.len(),
{
    if chunks.len() == 0 {
        Seq::empty()
    } else {
        chunks[0] + concat_chunks(chunks.skip(1))
    }
}

/// The bridge performs no reordering, deduplication or buffering beyond
/// queueing: after any run of data chunks, the request queue holds exactly
/// the bytes that arrived, in arrival order, and nothing else about the
/// connection has moved.
pub proof fn lemma_byte_order_preserved(m: BridgeModel, chunks: Seq<Seq<u8>>)
    ensures
        spec_receive_all(m, chunks).inbound == m.inbound + concat_chunks(chunks),
        spec_receive_all(m, chunks).outbound == m.outbound,
        spec_receive_all(m, chunks).state == m.state,
        spec_receive_all(m, chunks).originator_address == m.originator_address,
        spec_receive_all(m, chunks).originator_port == m.originator_port,
    decreases chunks.len(),
{
    if chunks.len() == 0 {
        assert(m.inbound + concat_chunks(chunks) =~= m.inbound);
    } else {
        lemma_byte_order_preserved(spec_receive(m, chunks[0]), chunks.skip(1));
        assert((m.inbound + chunks[0]) + concat_chunks(chunks.skip(1)) =~= m.inbound + (chunks[0]
            + concat_chunks(chunks.skip(1))));
    }
}

} // verus!
