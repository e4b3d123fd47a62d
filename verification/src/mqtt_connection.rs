use crate::ipc::{InboundMessage, InboundView, PublishMessage, PublishView};
use crate::payload::text_view;
use vstd::prelude::*;

verus! {

/// What a connection to the broker is made with, and made again after a loss.
#[derive(Debug, Clone)]
pub struct ConnectParams {
    pub client_id: String,
    pub address: String,
    pub port: u16,
    pub username: Option<String>,
    pub password: Option<String>,
}

/// The mathematical counterpart of `ConnectParams`.
pub struct ParamsView {
    pub client_id: Seq<char>,
    pub address: Seq<char>,
    pub port: u16,
    pub username: Option<Seq<char>>,
    pub password: Option<Seq<char>>,
}

impl View for ConnectParams {
    type V = ParamsView;

    open spec fn view(&self) -> ParamsView {
        ParamsView {
            client_id: self.client_id@,
            address: self.address@,
            port: self.port,
            username: text_view(self.username),
            password: text_view(self.password),
        }
    }
}

/// The first connection to the broker could not be made.
#[derive(Debug, Clone)]
pub struct ConnectError {
    /// What the transport reported.
    pub detail: String,
}

/// Why a session ended.
#[derive(Debug, Clone, Copy, PartialEq, Eq, Structural)]
pub enum CloseReason {
    /// The control channel signalled shutdown, or its sender is gone.
    Shutdown,
    /// Every producer of the outbound channel is gone.
    OutboundGone,
    /// The consumer of the inbound channel is gone.
    InboundGone,
}

/// The state of the one connection to the broker.
#[derive(Debug, Clone, Copy, PartialEq, Eq, Structural)]
pub enum Link {
    Connected,
    /// The connection was lost and is being made again.
    Reconnecting,
    /// The session has ended.
    Closed(CloseReason),
}

/// The session that owns the one connection to the broker: the parameters it
/// was made with, the state of the connection, the publish requests taken from
/// the outbound channel and not yet settled, and the broker's messages not yet
/// passed on. Both queues are first-in, first-out.
#[derive(Debug, Clone)]
pub struct MqttConnection {
    pub params: ConnectParams,
    pub link: Link,
    pub outbox: Vec<PublishMessage>,
    pub inbox: Vec<InboundMessage>,
}

/// The mathematical counterpart of `MqttConnection`.
pub struct SessionView {
    pub params: ParamsView,
    pub link: Link,
    pub outbox: Seq<PublishView>,
    pub inbox: Seq<InboundView>,
}

/// The views of a list of publish requests, in order.
pub open spec fn publish_views(v: Seq<PublishMessage>) -> Seq<PublishView> {
    v.map_values(|m: PublishMessage| m@)
}

/// The views of a list of broker messages, in order.
pub open spec fn inbound_views(v: Seq<InboundMessage>) -> Seq<InboundView> {
    v.map_values(|m: InboundMessage| m@)
}

impl View for MqttConnection {
    type V = SessionView;

    open spec fn view(&self) -> SessionView {
        SessionView {
            params: self.params@,
            link: self.link,
            outbox: publish_views(self.outbox@),
            inbox: inbound_views(self.inbox@),
        }
    }
}

/// The session right after its first connection: connected, with nothing queued.
pub open spec fn fresh_session(params: ParamsView) -> SessionView {
    SessionView { params, link: Link::Connected, outbox: Seq::empty(), inbox: Seq::empty() }
}

impl MqttConnection {
    /// Makes the session from the outcome of the first connection attempt.
    /// A failed attempt yields no session: there is no mode without a broker.
    pub fn new(
        client_id: String,
        address: String,
        port: u16,
        username: Option<String>,
        password: Option<String>,
        attempt: Result<(), String>,
    ) -> (r: Result<MqttConnection, ConnectError>)
        ensures
            attempt is Ok <==> r is Ok,
            r matches Ok(conn) ==> conn@ == fresh_session(
                ParamsView {
                    client_id: client_id@,
                    address: address@,
                    port,
                    username: text_view(username),
                    password: text_view(password),
                },
            ),
            r matches Err(e) ==> attempt matches Err(detail) && e.detail@ == detail@,
    {
        match attempt {
            Ok(_) => {
                let conn = MqttConnection {
                    params: ConnectParams { client_id, address, port, username, password },
                    link: Link::Connected,
                    outbox: Vec::new(),
                    inbox: Vec::new(),
                };
                assert(publish_views(conn.outbox@) =~= Seq::<PublishView>::empty());
                assert(inbound_views(conn.inbox@) =~= Seq::<InboundView>::empty());
                Ok(conn)
            },
            Err(detail) => Err(ConnectError { detail }),
        }
    }
}

} // verus!
