use crate::ipc::{
    IPCMessage, IPCView, InboundMessage, InboundView, PublishMessage, PublishView,
};
use crate::mqtt_connection::{
    inbound_views, publish_views, CloseReason, ConnectParams, Link, MqttConnection, SessionView,
};
use vstd::prelude::*;

verus! {

/// Why a publish did not go through.
#[derive(Debug, Clone, Copy, PartialEq, Eq, Structural)]
pub enum PublishFailure {
    /// The connection was lost under it.
    Disconnected,
    /// The broker or the client refused the request itself.
    Rejected,
}

/// What reached the session since its last action: something from one of its
/// three inputs, or the outcome of what it asked for.
#[derive(Debug, Clone)]
pub enum SessionEvent {
    /// The outbound channel delivered a message.
    Outbound(IPCMessage),
    /// The outbound channel is closed and empty.
    OutboundClosed,
    /// The control channel delivered a signal, or its sender is gone.
    Control,
    /// The broker delivered a message.
    Incoming(InboundMessage),
    /// The transport reported a loss of connection, an error or a stale link.
    ConnectionLost,
    /// The transport reported housekeeping traffic: a ping, an acknowledgement.
    Housekeeping,
    /// The publish asked for went through.
    Published,
    /// The publish asked for failed.
    PublishFailed(PublishFailure),
    /// The inbound channel took the message handed to it.
    Relayed,
    /// The inbound channel is closed.
    RelayClosed,
    /// The connection is made again.
    Reconnected,
    /// The attempt to connect again failed.
    ReconnectFailed,
}

/// The mathematical counterpart of `SessionEvent`.
pub enum SessionEventView {
    Outbound(IPCView),
    OutboundClosed,
    Control,
    Incoming(InboundView),
    ConnectionLost,
    Housekeeping,
    Published,
    PublishFailed(PublishFailure),
    Relayed,
    RelayClosed,
    Reconnected,
    ReconnectFailed,
}

impl View for SessionEvent {
    type V = SessionEventView;

    open spec fn view(&self) -> SessionEventView {
        match self {
            SessionEvent::Outbound(m) => SessionEventView::Outbound(m@),
            SessionEvent::OutboundClosed => SessionEventView::OutboundClosed,
            SessionEvent::Control => SessionEventView::Control,
            SessionEvent::Incoming(m) => SessionEventView::Incoming(m@),
            SessionEvent::ConnectionLost => SessionEventView::ConnectionLost,
            SessionEvent::Housekeeping => SessionEventView::Housekeeping,
            SessionEvent::Published => SessionEventView::Published,
            SessionEvent::PublishFailed(f) => SessionEventView::PublishFailed(*f),
            SessionEvent::Relayed => SessionEventView::Relayed,
            SessionEvent::RelayClosed => SessionEventView::RelayClosed,
            SessionEvent::Reconnected => SessionEventView::Reconnected,
            SessionEvent::ReconnectFailed => SessionEventView::ReconnectFailed,
        }
    }
}

/// What the session asks to be done next.
#[derive(Debug, Clone, Copy, PartialEq, Eq, Structural)]
pub enum SessionAction {
    /// Wait on the outbound channel, the control channel and the transport
    /// together, and report whichever is ready.
    Poll,
    /// Publish the first request of the outbox.
    Publish,
    /// Hand the first message of the inbox to the inbound channel, waiting
    /// while that channel is full.
    Relay,
    /// Connect again, with the parameters of the session.
    Reconnect,
    /// Close the connection in an orderly way and leave the loop.
    Close,
}

/// The action that a session in state `s` asks for. An ended session asks to
/// be closed; broker messages are passed on before anything else; a lost
/// connection is made again before anything is published; requests are
/// published while there are any; else the inputs are waited on.
pub open spec fn next_action(s: SessionView) -> SessionAction {
    if s.link is Closed {
        SessionAction::Close
    } else if s.inbox.len() > 0 {
        SessionAction::Relay
    } else if s.link is Reconnecting {
        SessionAction::Reconnect
    } else if s.outbox.len() > 0 {
        SessionAction::Publish
    } else {
        SessionAction::Poll
    }
}

/// The session's rule: the state after an event.
///
/// * An ended session stays as it is.
/// * A control signal, or the loss of either channel's other end, ends it.
/// * A publish request from the outbound channel joins the end of the outbox;
///   any other message on that channel is not for the broker and is passed over.
/// * A message from the broker joins the end of the inbox.
/// * A lost connection is to be made again; the queues stay as they are.
/// * A publish that went through, or was refused, settles the first request
///   of the outbox; one that failed for want of a connection settles nothing
///   and has the connection made again.
/// * A relayed message leaves the inbox.
/// * An outcome that was not asked for changes nothing.
pub open spec fn apply(s: SessionView, e: SessionEventView) -> SessionView {
    if s.link is Closed {
        s
    } else {
        match e {
            SessionEventView::Control => SessionView {
                link: Link::Closed(CloseReason::Shutdown),
                ..s
            },
            SessionEventView::OutboundClosed => SessionView {
                link: Link::Closed(CloseReason::OutboundGone),
                ..s
            },
            SessionEventView::RelayClosed => SessionView {
                link: Link::Closed(CloseReason::InboundGone),
                ..s
            },
            SessionEventView::Outbound(IPCView::Outbound(m)) => SessionView {
                outbox: s.outbox.push(m),
                ..s
            },
            SessionEventView::Outbound(IPCView::Inbound(_)) => s,
            SessionEventView::Incoming(m) => SessionView { inbox: s.inbox.push(m), ..s },
            SessionEventView::ConnectionLost => SessionView { link: Link::Reconnecting, ..s },
            SessionEventView::Reconnected => SessionView { link: Link::Connected, ..s },
            SessionEventView::ReconnectFailed => s,
            SessionEventView::Housekeeping => s,
            SessionEventView::Published => if next_action(s) == SessionAction::Publish {
                SessionView { outbox: s.outbox.drop_first(), ..s }
            } else {
                s
            },
            SessionEventView::PublishFailed(PublishFailure::Rejected) => if next_action(s)
                == SessionAction::Publish {
                SessionView { outbox: s.outbox.drop_first(), ..s }
            } else {
                s
            },
            SessionEventView::PublishFailed(PublishFailure::Disconnected) => if next_action(s)
                == SessionAction::Publish {
                SessionView { link: Link::Reconnecting, ..s }
            } else {
                s
            },
            SessionEventView::Relayed => if next_action(s) == SessionAction::Relay {
                SessionView { inbox: s.inbox.drop_first(), ..s }
            } else {
                s
            },
        }
    }
}

impl MqttConnection {
    /// The action that the session asks for as it stands.
    pub fn action(&self) -> (a: SessionAction)
        ensures
            a == next_action(self@),
    {
        match self.link {
            Link::Closed(_) => SessionAction::Close,
            Link::Reconnecting => if self.inbox.len() > 0 {
                SessionAction::Relay
            } else {
                SessionAction::Reconnect
            },
            Link::Connected => if self.inbox.len() > 0 {
                SessionAction::Relay
            } else if self.outbox.len() > 0 {
                SessionAction::Publish
            } else {
                SessionAction::Poll
            },
        }
    }

    /// The parameters to connect again with: those the session was made with.
    pub fn reconnect_params(&self) -> (p: &ConnectParams)
        ensures
            p@ == self@.params,
    {
        &self.params
    }

    /// The request to publish, where the session asks for a publish.
    pub fn pending_publish(&self) -> (m: Option<&PublishMessage>)
        ensures
            m is Some <==> next_action(self@) == SessionAction::Publish,
            m matches Some(request) ==> request@ == self@.outbox[0],
    {
        match self.action() {
            SessionAction::Publish => Some(&self.outbox[0]),
            _ => None,
        }
    }

    /// The message to pass on, where the session asks for a relay.
    pub fn pending_relay(&self) -> (m: Option<&InboundMessage>)
        ensures
            m is Some <==> next_action(self@) == SessionAction::Relay,
            m matches Some(message) ==> message@ == self@.inbox[0],
    {
        match self.action() {
            SessionAction::Relay => Some(&self.inbox[0]),
            _ => None,
        }
    }

    /// Settles the first request of the outbox.
    fn settle_publish(&mut self)
        requires
            old(self).outbox@.len() > 0,
        ensures
            final(self)@ == (SessionView { outbox: old(self)@.outbox.drop_first(), ..old(self)@ }),
    {
        let _ = self.outbox.remove(0);
        assert(publish_views(self.outbox@) =~= publish_views(old(self).outbox@).drop_first());
    }

    /// Takes the first message out of the inbox.
    fn settle_relay(&mut self)
        requires
            old(self).inbox@.len() > 0,
        ensures
            final(self)@ == (SessionView { inbox: old(self)@.inbox.drop_first(), ..old(self)@ }),
    {
        let _ = self.inbox.remove(0);
        assert(inbound_views(self.inbox@) =~= inbound_views(old(self).inbox@).drop_first());
    }
}

/// Applies the session's rule to one event and says what to do next.
pub fn mqtt_poll_step(conn: &mut MqttConnection, event: SessionEvent) -> (action: SessionAction)
    ensures
        final(conn)@ == apply(old(conn)@, event@),
        action == next_action(final(conn)@),
{
    let current = conn.action();
    match conn.link {
        Link::Closed(_) => {},
        _ => match event {
            SessionEvent::Control => {
                conn.link = Link::Closed(CloseReason::Shutdown);
            },
            SessionEvent::OutboundClosed => {
                conn.link = Link::Closed(CloseReason::OutboundGone);
            },
            SessionEvent::RelayClosed => {
                conn.link = Link::Closed(CloseReason::InboundGone);
            },
            SessionEvent::Outbound(IPCMessage::Outbound(m)) => {
                conn.outbox.push(m);
                assert(publish_views(conn.outbox@) =~= publish_views(old(conn).outbox@).push(m@));
            },
            SessionEvent::Outbound(IPCMessage::Inbound(_)) => {},
            SessionEvent::Incoming(m) => {
                conn.inbox.push(m);
                assert(inbound_views(conn.inbox@) =~= inbound_views(old(conn).inbox@).push(m@));
            },
            SessionEvent::ConnectionLost => {
                conn.link = Link::Reconnecting;
            },
            SessionEvent::Reconnected => {
                conn.link = Link::Connected;
            },
            SessionEvent::ReconnectFailed => {},
            SessionEvent::Housekeeping => {},
            SessionEvent::Published => {
                if current == SessionAction::Publish {
                    conn.settle_publish();
                }
            },
            SessionEvent::PublishFailed(PublishFailure::Rejected) => {
                if current == SessionAction::Publish {
                    conn.settle_publish();
                }
            },
            SessionEvent::PublishFailed(PublishFailure::Disconnected) => {
                if current == SessionAction::Publish {
                    conn.link = Link::Reconnecting;
                }
            },
            SessionEvent::Relayed => {
                if current == SessionAction::Relay {
                    conn.settle_relay();
                }
            },
        },
    }
    conn.action()
}

/// The state after a run of events, taken in order.
pub open spec fn run(s: SessionView, events: Seq<SessionEventView>) -> SessionView
    decreases events.len(),
{
    if events.len() == 0 {
        s
    } else {
        run(apply(s, events[0]), events.drop_first())
    }
}

/// The publish request that event `e` adds to the outbox of `s`, if any.
pub open spec fn accepted_by(s: SessionView, e: SessionEventView) -> Seq<PublishView> {
    match e {
        SessionEventView::Outbound(IPCView::Outbound(m)) => if s.link is Closed {
            Seq::empty()
        } else {
            seq![m]
        },
        _ => Seq::empty(),
    }
}

/// Whether event `e` settles the first request of the outbox of `s`.
pub open spec fn settles(s: SessionView, e: SessionEventView) -> bool {
    next_action(s) == SessionAction::Publish && (e is Published || e
        == SessionEventView::PublishFailed(PublishFailure::Rejected))
}

/// The request of `s` that event `e` settles, if any: published or refused.
pub open spec fn settled_by(s: SessionView, e: SessionEventView) -> Seq<PublishView> {
    if settles(s, e) {
        seq![s.outbox[0]]
    } else {
        Seq::empty()
    }
}

/// The request of `s` that event `e` reports as published, if any.
pub open spec fn published_by(s: SessionView, e: SessionEventView) -> Seq<PublishView> {
    if next_action(s) == SessionAction::Publish && e is Published {
        seq![s.outbox[0]]
    } else {
        Seq::empty()
    }
}

/// The publish requests that a run of events adds to the outbox, in order.
pub open spec fn accepted(s: SessionView, events: Seq<SessionEventView>) -> Seq<PublishView>
    decreases events.len(),
{
    if events.len() == 0 {
        Seq::empty()
    } else {
        accepted_by(s, events[0]) + accepted(apply(s, events[0]), events.drop_first())
    }
}

/// The requests that a run of events settles, in order.
pub open spec fn settled(s: SessionView, events: Seq<SessionEventView>) -> Seq<PublishView>
    decreases events.len(),
{
    if events.len() == 0 {
        Seq::empty()
    } else {
        settled_by(s, events[0]) + settled(apply(s, events[0]), events.drop_first())
    }
}

/// The requests that a run of events reports as published, in order.
pub open spec fn published(s: SessionView, events: Seq<SessionEventView>) -> Seq<PublishView>
    decreases events.len(),
{
    if events.len() == 0 {
        Seq::empty()
    } else {
        published_by(s, events[0]) + published(apply(s, events[0]), events.drop_first())
    }
}

/// The broker message that event `e` adds to the inbox of `s`, if any.
pub open spec fn received_by(s: SessionView, e: SessionEventView) -> Seq<InboundView> {
    match e {
        SessionEventView::Incoming(m) => if s.link is Closed {
            Seq::empty()
        } else {
            seq![m]
        },
        _ => Seq::empty(),
    }
}

/// The message of `s` that event `e` reports as passed on, if any.
pub open spec fn relayed_by(s: SessionView, e: SessionEventView) -> Seq<InboundView> {
    if next_action(s) == SessionAction::Relay && e is Relayed {
        seq![s.inbox[0]]
    } else {
        Seq::empty()
    }
}

/// The broker messages that a run of events adds to the inbox, in order.
pub open spec fn received(s: SessionView, events: Seq<SessionEventView>) -> Seq<InboundView>
    decreases events.len(),
{
    if events.len() == 0 {
        Seq::empty()
    } else {
        received_by(s, events[0]) + received(apply(s, events[0]), events.drop_first())
    }
}

/// The messages that a run of events reports as passed on, in order.
pub open spec fn relayed(s: SessionView, events: Seq<SessionEventView>) -> Seq<InboundView>
    decreases events.len(),
{
    if events.len() == 0 {
        Seq::empty()
    } else {
        relayed_by(s, events[0]) + relayed(apply(s, events[0]), events.drop_first())
    }
}

/// Whether a run of events holds no publish that was refused.
pub open spec fn none_refused(events: Seq<SessionEventView>) -> bool {
    forall|i: int|
        0 <= i < events.len() ==> events[i] != SessionEventView::PublishFailed(
            PublishFailure::Rejected,
        )
}

/// No event changes the parameters of a session: every reconnection uses the
/// client id, address, port and credentials that the session was made with.
pub proof fn lemma_parameters_never_change(s: SessionView, events: Seq<SessionEventView>)
    ensures
        run(s, events).params == s.params,
    decreases events.len(),
{
    if events.len() > 0 {
        lemma_parameters_never_change(apply(s, events[0]), events.drop_first());
    }
}

/// An ended session stays ended whatever follows: it asks only to be closed,
/// publishes nothing more and passes nothing more on.
pub proof fn lemma_closed_is_final(s: SessionView, events: Seq<SessionEventView>)
    requires
        s.link is Closed,
    ensures
        run(s, events) == s,
        next_action(run(s, events)) == SessionAction::Close,
        published(s, events) == Seq::<PublishView>::empty(),
        settled(s, events) == Seq::<PublishView>::empty(),
        relayed(s, events) == Seq::<InboundView>::empty(),
        accepted(s, events) == Seq::<PublishView>::empty(),
    decreases events.len(),
{
    if events.len() > 0 {
        lemma_closed_is_final(s, events.drop_first());
    }
}

/// One control signal ends the session in whatever state it finds it, and
/// nothing is published or passed on by anything that follows the signal.
pub proof fn lemma_shutdown_is_observed(s: SessionView, after: Seq<SessionEventView>)
    ensures
        apply(s, SessionEventView::Control).link is Closed,
        !(s.link is Closed) ==> apply(s, SessionEventView::Control).link == Link::Closed(
            CloseReason::Shutdown,
        ),
        next_action(apply(s, SessionEventView::Control)) == SessionAction::Close,
        run(apply(s, SessionEventView::Control), after) == apply(s, SessionEventView::Control),
        published(apply(s, SessionEventView::Control), after) == Seq::<PublishView>::empty(),
        relayed(apply(s, SessionEventView::Control), after) == Seq::<InboundView>::empty(),
{
    lemma_closed_is_final(apply(s, SessionEventView::Control), after);
}

/// Nothing is lost and nothing overtakes: over any run of events, the requests
/// settled so far, followed by those still in the outbox, are exactly the
/// requests that were in the outbox at the start followed by those accepted
/// since, in the order in which they came.
pub proof fn lemma_requests_are_conserved(s: SessionView, events: Seq<SessionEventView>)
    ensures
        settled(s, events) + run(s, events).outbox == s.outbox + accepted(s, events),
    decreases events.len(),
{
    if events.len() == 0 {
        assert(settled(s, events) + run(s, events).outbox =~= s.outbox + accepted(s, events));
    } else {
        let e = events[0];
        let next = apply(s, e);
        let tail = events.drop_first();
        lemma_requests_are_conserved(next, tail);
        assert(settled_by(s, e) + next.outbox =~= s.outbox + accepted_by(s, e));
        assert(settled(s, events) + run(s, events).outbox =~= settled_by(s, e) + (settled(
            next,
            tail,
        ) + run(next, tail).outbox));
        assert(settled_by(s, e) + (next.outbox + accepted(next, tail)) =~= (settled_by(s, e)
            + next.outbox) + accepted(next, tail));
        assert((s.outbox + accepted_by(s, e)) + accepted(next, tail) =~= s.outbox + accepted(
            s,
            events,
        ));
    }
}

/// Where no publish is refused, every settled request was published.
pub proof fn lemma_settled_means_published(s: SessionView, events: Seq<SessionEventView>)
    requires
        none_refused(events),
    ensures
        published(s, events) == settled(s, events),
    decreases events.len(),
{
    if events.len() > 0 {
        let tail = events.drop_first();
        assert forall|i: int| 0 <= i < tail.len() implies tail[i]
            != SessionEventView::PublishFailed(PublishFailure::Rejected) by {
            assert(tail[i] == events[i + 1]);
        }
        lemma_settled_means_published(apply(s, events[0]), tail);
    }
}

/// Reconnection is transparent: over any run of events in which no publish is
/// refused, whatever losses of connection and reconnections it holds, the
/// requests published so far, followed by those still waiting, are exactly
/// the requests that the session took, in the order in which it took them.
pub proof fn lemma_reconnection_keeps_order(s: SessionView, events: Seq<SessionEventView>)
    requires
        none_refused(events),
    ensures
        published(s, events) + run(s, events).outbox == s.outbox + accepted(s, events),
{
    lemma_requests_are_conserved(s, events);
    lemma_settled_means_published(s, events);
}

/// The same holds of the broker's messages: those passed on so far, followed
/// by those still in the inbox, are the messages that were in the inbox
/// followed by those received since, in order.
pub proof fn lemma_messages_are_conserved(s: SessionView, events: Seq<SessionEventView>)
    ensures
        relayed(s, events) + run(s, events).inbox == s.inbox + received(s, events),
    decreases events.len(),
{
    if events.len() == 0 {
        assert(relayed(s, events) + run(s, events).inbox =~= s.inbox + received(s, events));
    } else {
        let e = events[0];
        let next = apply(s, e);
        let tail = events.drop_first();
        lemma_messages_are_conserved(next, tail);
        assert(relayed_by(s, e) + next.inbox =~= s.inbox + received_by(s, e));
        assert(relayed(s, events) + run(s, events).inbox =~= relayed_by(s, e) + (relayed(
            next,
            tail,
        ) + run(next, tail).inbox));
        assert(relayed_by(s, e) + (next.inbox + received(next, tail)) =~= (relayed_by(s, e)
            + next.inbox) + received(next, tail));
        assert((s.inbox + received_by(s, e)) + received(next, tail) =~= s.inbox + received(
            s,
            events,
        ));
    }
}

/// Once the connection is back and the inbox is empty, the waiting requests
/// go out one after the other: `n` reports of a publish that went through
/// publish the first `n` requests of the outbox, in order.
pub proof fn lemma_backlog_drains(s: SessionView, n: nat)
    requires
        s.link is Connected,
        s.inbox.len() == 0,
        n <= s.outbox.len(),
    ensures
        published(s, Seq::new(n, |i: int| SessionEventView::Published)) == s.outbox.take(
            n as int,
        ),
        run(s, Seq::new(n, |i: int| SessionEventView::Published)) == (SessionView {
            outbox: s.outbox.skip(n as int),
            ..s
        }),
    decreases n,
{
    let events = Seq::new(n, |i: int| SessionEventView::Published);
    if n == 0 {
        assert(s.outbox.take(0) =~= Seq::empty());
        assert(s.outbox.skip(0) =~= s.outbox);
    } else {
        let next = apply(s, events[0]);
        let tail = events.drop_first();
        let fewer = Seq::new((n - 1) as nat, |i: int| SessionEventView::Published);
        assert(tail =~= fewer);
        lemma_backlog_drains(next, (n - 1) as nat);
        assert(next.outbox == s.outbox.drop_first());
        assert(seq![s.outbox[0]] + s.outbox.drop_first().take(n - 1) =~= s.outbox.take(n as int));
        assert(s.outbox.drop_first().skip(n - 1) =~= s.outbox.skip(n as int));
    }
}

} // verus!
