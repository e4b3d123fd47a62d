use crate::payload::{
    compound_views, CompoundPayload, CompoundView, Payload, PayloadView,
};
use vstd::prelude::*;

verus! {

/// A request to publish one payload on one topic.
#[derive(Debug, Clone)]
pub struct PublishMessage {
    pub topic: String,
    pub payload: Payload,
}

/// The mathematical counterpart of `PublishMessage`.
pub struct PublishView {
    pub topic: Seq<char>,
    pub payload: PayloadView,
}

impl View for PublishMessage {
    type V = PublishView;

    open spec fn view(&self) -> PublishView {
        PublishView { topic: self.topic@, payload: self.payload@ }
    }
}

/// A message that the broker delivered.
#[derive(Debug, Clone)]
pub struct InboundMessage {
    pub topic: String,
    pub payload: Vec<u8>,
}

/// The mathematical counterpart of `InboundMessage`.
pub struct InboundView {
    pub topic: Seq<char>,
    pub payload: Seq<u8>,
}

impl View for InboundMessage {
    type V = InboundView;

    open spec fn view(&self) -> InboundView {
        InboundView { topic: self.topic@, payload: self.payload@ }
    }
}

/// What the tasks hand to one another over their channels.
#[derive(Debug, Clone)]
pub enum IPCMessage {
    /// Towards the broker.
    Outbound(PublishMessage),
    /// From the broker.
    Inbound(InboundMessage),
}

/// The mathematical counterpart of `IPCMessage`.
pub enum IPCView {
    Outbound(PublishView),
    Inbound(InboundView),
}

impl View for IPCMessage {
    type V = IPCView;

    open spec fn view(&self) -> IPCView {
        match self {
            IPCMessage::Outbound(m) => IPCView::Outbound(m@),
            IPCMessage::Inbound(m) => IPCView::Inbound(m@),
        }
    }
}

/// The views of a list of messages, in order.
pub open spec fn ipc_views(v: Seq<IPCMessage>) -> Seq<IPCView> {
    v.map_values(|m: IPCMessage| m@)
}

/// The request that publishes the discovery document of a pair.
pub open spec fn discovery_request(c: CompoundView) -> IPCView {
    IPCView::Outbound(
        PublishView { topic: c.config_topic, payload: PayloadView::Config(c.config) },
    )
}

/// The request that publishes the state reading of a pair.
pub open spec fn state_request(c: CompoundView) -> IPCView {
    IPCView::Outbound(
        PublishView { topic: c.state_topic, payload: PayloadView::CurrentState(c.state) },
    )
}

/// The requests of one poll cycle: for each pair, in order, its discovery
/// request and directly after it its state request.
pub open spec fn cycle_requests_of(pairs: Seq<CompoundView>) -> Seq<IPCView> {
    Seq::new(
        2 * pairs.len(),
        |i: int|
            if i % 2 == 0 {
                discovery_request(pairs[i / 2])
            } else {
                state_request(pairs[i / 2])
            },
    )
}

/// Turns one pair into its two requests: the discovery request first, the
/// state request second.
pub fn publish_requests(pair: CompoundPayload) -> (r: (IPCMessage, IPCMessage))
    ensures
        r.0@ == discovery_request(pair@),
        r.1@ == state_request(pair@),
{
    let discovery = IPCMessage::Outbound(
        PublishMessage { topic: pair.config_topic, payload: Payload::Config(pair.config) },
    );
    let state = IPCMessage::Outbound(
        PublishMessage { topic: pair.state_topic, payload: Payload::CurrentState(pair.state) },
    );
    (discovery, state)
}

/// Turns the pairs of one poll cycle into the requests to enqueue, in the
/// order in which they are to be enqueued.
pub fn cycle_requests(pairs: Vec<CompoundPayload>) -> (out: Vec<IPCMessage>)
    ensures
        ipc_views(out@) == cycle_requests_of(compound_views(pairs@)),
{
    let ghost all = compound_views(pairs@);
    let mut rest = pairs;
    let mut out: Vec<IPCMessage> = Vec::new();
    let ghost mut done: int = 0;
    while rest.len() > 0
        invariant
            0 <= done <= all.len(),
            compound_views(rest@) == all.subrange(done, all.len() as int),
            ipc_views(out@) == cycle_requests_of(all.subrange(0, done)),
        decreases rest.len(),
    {
        let ghost before = rest@;
        let ghost sent = ipc_views(out@);
        let pair = rest.remove(0);
        proof {
            let tail = all.subrange(done, all.len() as int);
            assert(compound_views(before).len() == before.len());
            assert(tail[0] == pair@);
            assert forall|i: int| 0 <= i < rest@.len() implies compound_views(rest@)[i]
                == all[done + 1 + i] by {
                assert(rest@[i] == before[i + 1]);
                assert(compound_views(before)[i + 1] == tail[i + 1]);
            }
            assert(compound_views(rest@) =~= all.subrange(done + 1, all.len() as int));
        }
        let (discovery, state) = publish_requests(pair);
        out.push(discovery);
        out.push(state);
        proof {
            assert(ipc_views(out@) =~= sent.push(discovery@).push(state@));
            assert(sent.push(discovery@).push(state@) =~= cycle_requests_of(
                all.subrange(0, done + 1),
            ));
            done = done + 1;
        }
    }
    proof {
        assert(compound_views(rest@).len() == 0);
        assert(all.subrange(0, done) =~= all);
    }
    out
}

/// Within one cycle the discovery request of a pair stands directly before
/// its state request, and both stand behind the requests of every earlier pair.
pub proof fn lemma_discovery_precedes_state(pairs: Seq<CompoundView>, k: int)
    requires
        0 <= k < pairs.len(),
    ensures
        cycle_requests_of(pairs).len() == 2 * pairs.len(),
        cycle_requests_of(pairs)[2 * k] == discovery_request(pairs[k]),
        cycle_requests_of(pairs)[2 * k + 1] == state_request(pairs[k]),
{
}

} // verus!
