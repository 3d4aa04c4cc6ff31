//! The echo gateway: one listener, and one independent echo session per
//! accepted connection.
//!
//! A session and the gateway's accept loop are each a state machine. The
//! caller performs what an action asks for and reports the outcome as the
//! next event. An event that does not answer what the machine is waiting for
//! changes nothing and is answered with `Idle`.

use vstd::prelude::*;
use crate::address::{gateway_address, BindAddress, GATEWAY_PORT};

verus! {

/// A WebSocket message as a session reads and writes it.
#[derive(Clone, Debug, PartialEq, Eq)]
pub enum Message {
    Text(String),
    Binary(Vec<u8>),
    Ping(Vec<u8>),
    Pong(Vec<u8>),
}

/// What a [`Message`] holds: its frame type and its payload.
pub enum MessageView {
    Text(Seq<char>),
    Binary(Seq<u8>),
    Ping(Seq<u8>),
    Pong(Seq<u8>),
}

impl View for Message {
    type V = MessageView;

    open spec fn view(&self) -> MessageView {
        match self {
            Message::Text(s) => MessageView::Text(s@),
            Message::Binary(b) => MessageView::Binary(b@),
            Message::Ping(b) => MessageView::Ping(b@),
            Message::Pong(b) => MessageView::Pong(b@),
        }
    }
}

/// Where a session stands. `Reading` and `Writing` together are the open
/// phase: the session waits for the next inbound message, or for the echo of
/// the last one to be written out.
#[derive(Clone, Copy, Debug, PartialEq, Eq, Structural)]
pub enum SessionState {
    Connecting,
    Reading,
    Writing,
    Closing,
    Closed,
}

impl SessionState {
    /// The handshake is done and the session has not begun to close.
    pub open spec fn is_open(self) -> bool {
        self == SessionState::Reading || self == SessionState::Writing
    }

    /// How far along its life a session is: connecting, open, closing,
    /// closed.
    pub open spec fn stage(self) -> nat {
        match self {
            SessionState::Connecting => 0,
            SessionState::Reading => 1,
            SessionState::Writing => 1,
            SessionState::Closing => 2,
            SessionState::Closed => 3,
        }
    }
}

/// Why a session ends.
#[derive(Clone, Copy, Debug, PartialEq, Eq, Structural)]
pub enum CloseReason {
    /// The upgrade handshake did not complete.
    HandshakeFailed,
    /// The peer sent a close frame, or the stream ended.
    PeerClosed,
    /// A read or a write failed in the open phase.
    SessionIoError,
}

/// The outcome of what a session last asked for. `M` is [`Message`] in
/// executable code and [`MessageView`] in specifications.
#[derive(Clone, Debug, PartialEq, Eq)]
pub enum SessionEvent<M> {
    HandshakeCompleted,
    HandshakeFailed,
    Received(M),
    PeerClosed,
    ReceiveFailed,
    Sent,
    SendFailed,
    Released,
}

/// What one read on an open transport gives.
#[derive(Clone, Debug, PartialEq, Eq)]
pub enum Inbound<M> {
    /// A whole message.
    Message(M),
    /// The peer's close frame.
    Close,
    /// The stream has ended without a close frame.
    EndOfStream,
    /// A frame that is no message.
    RawFrame,
    /// The read failed: the connection was reset, or a frame was malformed.
    Error,
}

/// What a session asks its caller to do next.
#[derive(Clone, Debug, PartialEq, Eq)]
pub enum SessionAction<M> {
    /// Run the upgrade handshake on the accepted transport.
    Handshake,
    /// Read the next inbound message.
    Receive,
    /// Write this message to the peer.
    Send(M),
    /// Drop the transport.
    Release(CloseReason),
    /// The session is over.
    Finish,
    /// The event did not concern the session; nothing new is to be done.
    Idle,
}

impl View for SessionEvent<Message> {
    type V = SessionEvent<MessageView>;

    open spec fn view(&self) -> SessionEvent<MessageView> {
        match self {
            SessionEvent::HandshakeCompleted => SessionEvent::HandshakeCompleted,
            SessionEvent::HandshakeFailed => SessionEvent::HandshakeFailed,
            SessionEvent::Received(m) => SessionEvent::Received(m@),
            SessionEvent::PeerClosed => SessionEvent::PeerClosed,
            SessionEvent::ReceiveFailed => SessionEvent::ReceiveFailed,
            SessionEvent::Sent => SessionEvent::Sent,
            SessionEvent::SendFailed => SessionEvent::SendFailed,
            SessionEvent::Released => SessionEvent::Released,
        }
    }
}

impl View for Inbound<Message> {
    type V = Inbound<MessageView>;

    open spec fn view(&self) -> Inbound<MessageView> {
        match self {
            Inbound::Message(m) => Inbound::Message(m@),
            Inbound::Close => Inbound::Close,
            Inbound::EndOfStream => Inbound::EndOfStream,
            Inbound::RawFrame => Inbound::RawFrame,
            Inbound::Error => Inbound::Error,
        }
    }
}

impl View for SessionAction<Message> {
    type V = SessionAction<MessageView>;

    open spec fn view(&self) -> SessionAction<MessageView> {
        match self {
            SessionAction::Handshake => SessionAction::Handshake,
            SessionAction::Receive => SessionAction::Receive,
            SessionAction::Send(m) => SessionAction::Send(m@),
            SessionAction::Release(reason) => SessionAction::Release(*reason),
            SessionAction::Finish => SessionAction::Finish,
            SessionAction::Idle => SessionAction::Idle,
        }
    }
}

/// The event that reports a read. A message is received as it is. The peer's
/// close frame and the end of the stream both mean that the peer has closed.
/// Anything else is a failed read.
pub open spec fn read_event(inbound: Inbound<MessageView>) -> SessionEvent<MessageView> {
    match inbound {
        Inbound::Message(m) => SessionEvent::Received(m),
        Inbound::Close => SessionEvent::PeerClosed,
        Inbound::EndOfStream => SessionEvent::PeerClosed,
        Inbound::RawFrame => SessionEvent::ReceiveFailed,
        Inbound::Error => SessionEvent::ReceiveFailed,
    }
}

impl SessionEvent<Message> {
    /// The event that reports what a read gave.
    pub fn of_read(inbound: Inbound<Message>) -> (event: SessionEvent<Message>)
        ensures
            event@ == read_event(inbound@),
    {
        match inbound {
            Inbound::Message(message) => SessionEvent::Received(message),
            Inbound::Close => SessionEvent::PeerClosed,
            Inbound::EndOfStream => SessionEvent::PeerClosed,
            Inbound::RawFrame => SessionEvent::ReceiveFailed,
            Inbound::Error => SessionEvent::ReceiveFailed,
        }
    }

    /// The event that reports the handshake, by whether it completed.
    pub fn of_handshake(completed: bool) -> (event: SessionEvent<Message>)
        ensures
            event@ == if completed {
                SessionEvent::<MessageView>::HandshakeCompleted
            } else {
                SessionEvent::<MessageView>::HandshakeFailed
            },
    {
        if completed {
            SessionEvent::HandshakeCompleted
        } else {
            SessionEvent::HandshakeFailed
        }
    }

    /// The event that reports a write, by whether it was written out.
    pub fn of_write(written: bool) -> (event: SessionEvent<Message>)
        ensures
            event@ == if written {
                SessionEvent::<MessageView>::Sent
            } else {
                SessionEvent::<MessageView>::SendFailed
            },
    {
        if written {
            SessionEvent::Sent
        } else {
            SessionEvent::SendFailed
        }
    }
}

/// The event is a possible outcome of what a session in `state` waits for.
pub open spec fn session_admits(state: SessionState, event: SessionEvent<MessageView>) -> bool {
    match state {
        SessionState::Connecting => event is HandshakeCompleted || event is HandshakeFailed,
        SessionState::Reading => event is Received || event is PeerClosed
            || event is ReceiveFailed,
        SessionState::Writing => event is Sent || event is SendFailed,
        SessionState::Closing => event is Released,
        SessionState::Closed => false,
    }
}

/// One transition of a session: the state it moves to and what it asks for.
pub open spec fn session_step(state: SessionState, event: SessionEvent<MessageView>) -> (
    SessionState,
    SessionAction<MessageView>,
) {
    match (state, event) {
        (SessionState::Connecting, SessionEvent::HandshakeCompleted) => (
            SessionState::Reading,
            SessionAction::Receive,
        ),
        (SessionState::Connecting, SessionEvent::HandshakeFailed) => (
            SessionState::Closing,
            SessionAction::Release(CloseReason::HandshakeFailed),
        ),
        (SessionState::Reading, SessionEvent::Received(m)) => (
            SessionState::Writing,
            SessionAction::Send(m),
        ),
        (SessionState::Reading, SessionEvent::PeerClosed) => (
            SessionState::Closing,
            SessionAction::Release(CloseReason::PeerClosed),
        ),
        (SessionState::Reading, SessionEvent::ReceiveFailed) => (
            SessionState::Closing,
            SessionAction::Release(CloseReason::SessionIoError),
        ),
        (SessionState::Writing, SessionEvent::Sent) => (
            SessionState::Reading,
            SessionAction::Receive,
        ),
        (SessionState::Writing, SessionEvent::SendFailed) => (
            SessionState::Closing,
            SessionAction::Release(CloseReason::SessionIoError),
        ),
        (SessionState::Closing, SessionEvent::Released) => (
            SessionState::Closed,
            SessionAction::Finish,
        ),
        _ => (state, SessionAction::Idle),
    }
}

/// One echo session: the lifecycle of a single accepted connection.
#[derive(Debug)]
pub struct Session {
    state: SessionState,
}

impl View for Session {
    type V = SessionState;

    closed spec fn view(&self) -> SessionState {
        self.state
    }
}

impl Session {
    /// A session for a transport that was just accepted. It is `Connecting`
    /// and asks for the handshake.
    pub fn accepted() -> (r: (Session, SessionAction<Message>))
        ensures
            r.0@ == SessionState::Connecting,
            r.1@ == SessionAction::<MessageView>::Handshake,
    {
        (Session { state: SessionState::Connecting }, SessionAction::Handshake)
    }

    /// The state the session is in.
    pub fn state(&self) -> (state: SessionState)
        ensures
            state == self@,
    {
        self.state
    }

    /// Takes the outcome of the last action and answers with the next one.
    ///
    /// In `Reading`, a received message is answered with `Send` of that very
    /// message, and the session reads no further message before that write
    /// has been reported.
    pub fn on_event(&mut self, event: SessionEvent<Message>) -> (action: SessionAction<Message>)
        ensures
            (final(self)@, action@) == session_step(old(self)@, event@),
    {
        match (self.state, event) {
            (SessionState::Connecting, SessionEvent::HandshakeCompleted) => {
                self.state = SessionState::Reading;
                SessionAction::Receive
            },
            (SessionState::Connecting, SessionEvent::HandshakeFailed) => {
                self.state = SessionState::Closing;
                SessionAction::Release(CloseReason::HandshakeFailed)
            },
            (SessionState::Reading, SessionEvent::Received(message)) => {
                self.state = SessionState::Writing;
                SessionAction::Send(message)
            },
            (SessionState::Reading, SessionEvent::PeerClosed) => {
                self.state = SessionState::Closing;
                SessionAction::Release(CloseReason::PeerClosed)
            },
            (SessionState::Reading, SessionEvent::ReceiveFailed) => {
                self.state = SessionState::Closing;
                SessionAction::Release(CloseReason::SessionIoError)
            },
            (SessionState::Writing, SessionEvent::Sent) => {
                self.state = SessionState::Reading;
                SessionAction::Receive
            },
            (SessionState::Writing, SessionEvent::SendFailed) => {
                self.state = SessionState::Closing;
                SessionAction::Release(CloseReason::SessionIoError)
            },
            (SessionState::Closing, SessionEvent::Released) => {
                self.state = SessionState::Closed;
                SessionAction::Finish
            },
            _ => SessionAction::Idle,
        }
    }
}

/// The session run on a sequence of events from `state`: the state it ends
/// in and the action that answered each event, in order.
pub open spec fn session_run(state: SessionState, events: Seq<SessionEvent<MessageView>>) -> (
    SessionState,
    Seq<SessionAction<MessageView>>,
)
    decreases events.len(),
{
    if events.len() == 0 {
        (state, Seq::empty())
    } else {
        let (next, action) = session_step(state, events[0]);
        let (last, actions) = session_run(next, events.drop_first());
        (last, seq![action] + actions)
    }
}

/// Every event answers what the session waits for when it arrives.
pub open spec fn session_driven(state: SessionState, events: Seq<SessionEvent<MessageView>>) -> bool
    decreases events.len(),
{
    events.len() > 0 ==> session_admits(state, events[0]) && session_driven(
        session_step(state, events[0]).0,
        events.drop_first(),
    )
}

/// The messages among the events, in the order in which they were read.
pub open spec fn received(events: Seq<SessionEvent<MessageView>>) -> Seq<MessageView>
    decreases events.len(),
{
    if events.len() == 0 {
        Seq::empty()
    } else {
        let rest = received(events.drop_first());
        match events[0] {
            SessionEvent::Received(m) => seq![m] + rest,
            _ => rest,
        }
    }
}

/// The messages that the actions send, in the order in which they are sent.
pub open spec fn replies(actions: Seq<SessionAction<MessageView>>) -> Seq<MessageView>
    decreases actions.len(),
{
    if actions.len() == 0 {
        Seq::empty()
    } else {
        let rest = replies(actions.drop_first());
        match actions[0] {
            SessionAction::Send(m) => seq![m] + rest,
            _ => rest,
        }
    }
}

/// A message read by an open session is answered by sending that message,
/// frame type and payload unchanged, and by nothing else. No transition
/// sends anything but the message that was just read, and none sends while
/// an echo is still being written.
pub proof fn echo_fidelity(
    message: MessageView,
    state: SessionState,
    event: SessionEvent<MessageView>,
)
    ensures
        session_step(SessionState::Reading, SessionEvent::Received(message)) == (
            SessionState::Writing,
            SessionAction::Send(message),
        ),
        session_step(state, event).1 == SessionAction::Send(message) ==> state
            == SessionState::Reading && event == SessionEvent::Received(message),
        session_step(state, event).1 is Send ==> state == SessionState::Reading && event
            is Received,
        state == SessionState::Writing ==> !(session_step(state, event).1 is Send),
{
}

/// While the echo of a message is being written, the session reads nothing:
/// it asks for the next message only when the write has been reported.
pub proof fn one_message_in_flight(state: SessionState, event: SessionEvent<MessageView>)
    ensures
        session_step(state, event).1 is Receive ==> (state == SessionState::Writing && event
            is Sent) || (state == SessionState::Connecting && event is HandshakeCompleted),
        session_step(state, event).1 is Receive ==> session_step(state, event).0
            == SessionState::Reading,
{
}

/// On a run in which every event answers what the session asked for, the
/// messages sent are the messages read: each one once, in the same order.
pub proof fn echo_ordering(state: SessionState, events: Seq<SessionEvent<MessageView>>)
    requires
        session_driven(state, events),
    ensures
        replies(session_run(state, events).1) == received(events),
    decreases events.len(),
{
    if events.len() > 0 {
        let (next, action) = session_step(state, events[0]);
        let rest = session_run(next, events.drop_first()).1;
        echo_ordering(next, events.drop_first());
        assert((seq![action] + rest).drop_first() =~= rest);
    }
}

/// On such a run every message is answered at once and by its own echo: the
/// action that answers an event sends a message exactly where the event is a
/// message read, and then it sends that message.
pub proof fn echo_is_immediate(state: SessionState, events: Seq<SessionEvent<MessageView>>)
    requires
        session_driven(state, events),
    ensures
        session_run(state, events).1.len() == events.len(),
        forall|i: int|
            0 <= i < events.len() ==> match #[trigger] events[i] {
                SessionEvent::Received(m) => session_run(state, events).1[i]
                    == SessionAction::Send(m),
                _ => !(session_run(state, events).1[i] is Send),
            },
    decreases events.len(),
{
    if events.len() > 0 {
        let (next, action) = session_step(state, events[0]);
        let later = events.drop_first();
        let rest = session_run(next, later).1;
        let all = seq![action] + rest;
        echo_is_immediate(next, later);
        assert forall|i: int| 0 <= i < events.len() implies match #[trigger] events[i] {
            SessionEvent::Received(m) => all[i] == SessionAction::Send(m),
            _ => !(all[i] is Send),
        } by {
            if i > 0 {
                assert(events[i] == later[i - 1]);
                assert(all[i] == rest[i - 1]);
            }
        }
    }
}

/// A session runs through its life once: connecting, open, closing, closed.
/// It never goes back and is never tried again. It closes only by dropping
/// its transport first, and it begins to close on a failed handshake, on the
/// peer's close, or on a failed read or write, and on nothing else.
pub proof fn session_lifecycle(state: SessionState, event: SessionEvent<MessageView>)
    ensures
        session_step(state, event).0.stage() >= state.stage(),
        session_step(state, event).0.is_open() ==> state.is_open() || (state
            == SessionState::Connecting && event is HandshakeCompleted),
        !session_admits(state, event) ==> session_step(state, event) == (
            state,
            SessionAction::<MessageView>::Idle,
        ),
        session_step(state, event).0 == SessionState::Closed && state != SessionState::Closed
            ==> state == SessionState::Closing && event is Released,
        session_step(state, event).0 == SessionState::Closing && state != SessionState::Closing
            ==> session_step(state, event).1 is Release && (event is HandshakeFailed || event
            is PeerClosed || event is ReceiveFailed || event is SendFailed),
        session_step(state, event).1 is Release <==> session_step(state, event).0
            == SessionState::Closing && state != SessionState::Closing,
{
}

/// A closed session stays closed and sends nothing, whatever arrives.
pub proof fn closed_is_final(events: Seq<SessionEvent<MessageView>>)
    ensures
        session_run(SessionState::Closed, events).0 == SessionState::Closed,
        replies(session_run(SessionState::Closed, events).1) == Seq::<MessageView>::empty(),
    decreases events.len(),
{
    if events.len() > 0 {
        let rest = session_run(SessionState::Closed, events.drop_first()).1;
        closed_is_final(events.drop_first());
        assert((seq![SessionAction::<MessageView>::Idle] + rest).drop_first() =~= rest);
    }
}


/// The state of session `id` among `sessions`. A session that has not been
/// heard of yet is one whose transport was just accepted.
pub open spec fn session_state_of(sessions: Map<nat, SessionState>, id: nat) -> SessionState {
    if sessions.contains_key(id) {
        sessions[id]
    } else {
        SessionState::Connecting
    }
}

/// Several sessions open at once. `tagged` holds their events in the order
/// in which they occur, each with the number of the session it belongs to;
/// each event is handled by its own session. The result holds the state of
/// every session at the end, and each action with its session's number.
pub open spec fn concurrent_run(
    sessions: Map<nat, SessionState>,
    tagged: Seq<(nat, SessionEvent<MessageView>)>,
) -> (Map<nat, SessionState>, Seq<(nat, SessionAction<MessageView>)>)
    decreases tagged.len(),
{
    if tagged.len() == 0 {
        (sessions, Seq::empty())
    } else {
        let (id, event) = tagged[0];
        let (next, action) = session_step(session_state_of(sessions, id), event);
        let (last, actions) = concurrent_run(sessions.insert(id, next), tagged.drop_first());
        (last, seq![(id, action)] + actions)
    }
}

/// The events or actions that carry the number `id`, in order.
pub open spec fn of_session<A>(tagged: Seq<(nat, A)>, id: nat) -> Seq<A>
    decreases tagged.len(),
{
    if tagged.len() == 0 {
        Seq::empty()
    } else {
        let rest = of_session(tagged.drop_first(), id);
        if tagged[0].0 == id {
            seq![tagged[0].1] + rest
        } else {
            rest
        }
    }
}

/// Sessions do not observe each other. However the events of several
/// sessions interleave, a session ends in the state, and is answered with
/// the actions, that its own events alone would have given it: a message
/// read on one session is never sent on another.
pub proof fn session_isolation(
    sessions: Map<nat, SessionState>,
    tagged: Seq<(nat, SessionEvent<MessageView>)>,
    id: nat,
)
    ensures
        session_state_of(concurrent_run(sessions, tagged).0, id) == session_run(
            session_state_of(sessions, id),
            of_session(tagged, id),
        ).0,
        of_session(concurrent_run(sessions, tagged).1, id) == session_run(
            session_state_of(sessions, id),
            of_session(tagged, id),
        ).1,
    decreases tagged.len(),
{
    if tagged.len() > 0 {
        let (first, event) = tagged[0];
        let (next, action) = session_step(session_state_of(sessions, first), event);
        let later = sessions.insert(first, next);
        let actions = concurrent_run(later, tagged.drop_first()).1;
        session_isolation(later, tagged.drop_first(), id);
        assert((seq![(first, action)] + actions).drop_first() =~= actions);
        if first == id {
            let own = of_session(tagged.drop_first(), id);
            assert((seq![event] + own).drop_first() =~= own);
        }
    }
}

/// Where the gateway's accept loop stands.
#[derive(Clone, Copy, Debug, PartialEq, Eq, Structural)]
pub enum GatewayState {
    /// The listener is being bound.
    Binding,
    /// The listener is bound and connections are accepted.
    Listening,
    /// The accept loop has ended.
    Stopped(GatewayStop),
}

/// Why the gateway's accept loop ended.
#[derive(Clone, Copy, Debug, PartialEq, Eq, Structural)]
pub enum GatewayStop {
    /// The address could not be bound.
    ListenerBindFailed,
    /// The listener failed to accept a connection.
    AcceptFailed,
}

/// The outcome of what the gateway last asked for.
#[derive(Clone, Copy, Debug, PartialEq, Eq, Structural)]
pub enum GatewayEvent {
    Bound,
    BindFailed,
    Accepted,
    AcceptFailed,
}

/// What the gateway asks its caller to do next.
#[derive(Clone, Copy, Debug, PartialEq, Eq)]
pub enum GatewayAction {
    /// Bind the listener to this address, then accept on it.
    Bind(BindAddress),
    /// Wait for the next connection.
    Accept,
    /// Hand the connection that was just accepted to a session of its own,
    /// which runs beside the accept loop, and wait for the next connection.
    SpawnSession,
    /// End the accept loop.
    Stop(GatewayStop),
    /// The event did not concern the gateway; nothing new is to be done.
    Idle,
}

/// One transition of the accept loop. A session that fails, in its
/// handshake or later, is no event of the gateway: only the listener itself
/// can end the loop.
pub open spec fn gateway_step(state: GatewayState, event: GatewayEvent) -> (
    GatewayState,
    GatewayAction,
) {
    match (state, event) {
        (GatewayState::Binding, GatewayEvent::Bound) => (
            GatewayState::Listening,
            GatewayAction::Accept,
        ),
        (GatewayState::Binding, GatewayEvent::BindFailed) => (
            GatewayState::Stopped(GatewayStop::ListenerBindFailed),
            GatewayAction::Stop(GatewayStop::ListenerBindFailed),
        ),
        (GatewayState::Listening, GatewayEvent::Accepted) => (
            GatewayState::Listening,
            GatewayAction::SpawnSession,
        ),
        (GatewayState::Listening, GatewayEvent::AcceptFailed) => (
            GatewayState::Stopped(GatewayStop::AcceptFailed),
            GatewayAction::Stop(GatewayStop::AcceptFailed),
        ),
        _ => (state, GatewayAction::Idle),
    }
}

/// The accept loop of the echo gateway.
#[derive(Debug)]
pub struct Gateway {
    state: GatewayState,
}

impl View for Gateway {
    type V = GatewayState;

    closed spec fn view(&self) -> GatewayState {
        self.state
    }
}

impl Gateway {
    /// The state the accept loop is in.
    pub fn state(&self) -> (state: GatewayState)
        ensures
            state == self@,
    {
        self.state
    }

    /// Takes the outcome of the last action and answers with the next one.
    pub fn on_event(&mut self, event: GatewayEvent) -> (action: GatewayAction)
        ensures
            (final(self)@, action) == gateway_step(old(self)@, event),
    {
        match (self.state, event) {
            (GatewayState::Binding, GatewayEvent::Bound) => {
                self.state = GatewayState::Listening;
                GatewayAction::Accept
            },
            (GatewayState::Binding, GatewayEvent::BindFailed) => {
                self.state = GatewayState::Stopped(GatewayStop::ListenerBindFailed);
                GatewayAction::Stop(GatewayStop::ListenerBindFailed)
            },
            (GatewayState::Listening, GatewayEvent::Accepted) => GatewayAction::SpawnSession,
            (GatewayState::Listening, GatewayEvent::AcceptFailed) => {
                self.state = GatewayState::Stopped(GatewayStop::AcceptFailed);
                GatewayAction::Stop(GatewayStop::AcceptFailed)
            },
            _ => GatewayAction::Idle,
        }
    }
}

/// Starts the echo gateway: the accept loop in its first state, and the
/// request to bind its listener to 127.0.0.1:8081.
pub fn start_websocket_server() -> (r: (Gateway, GatewayAction))
    ensures
        r.0@ == GatewayState::Binding,
        r.1 == GatewayAction::Bind(BindAddress::localhost(GATEWAY_PORT)),
{
    (Gateway { state: GatewayState::Binding }, GatewayAction::Bind(gateway_address()))
}

/// The accept loop run on a sequence of events from `state`.
pub open spec fn gateway_run(state: GatewayState, events: Seq<GatewayEvent>) -> (
    GatewayState,
    Seq<GatewayAction>,
)
    decreases events.len(),
{
    if events.len() == 0 {
        (state, Seq::empty())
    } else {
        let (next, action) = gateway_step(state, events[0]);
        let (last, actions) = gateway_run(next, events.drop_first());
        (last, seq![action] + actions)
    }
}

/// How many of the items equal `item`.
pub open spec fn count_of<A>(items: Seq<A>, item: A) -> nat
    decreases items.len(),
{
    if items.len() == 0 {
        0
    } else {
        let rest = count_of(items.drop_first(), item);
        if items[0] == item {
            rest + 1
        } else {
            rest
        }
    }
}

/// While it listens, the gateway starts one session for each connection
/// accepted, and nothing but a failure of the listener ends the loop.
pub proof fn one_session_per_connection(events: Seq<GatewayEvent>)
    requires
        forall|i: int| 0 <= i < events.len() ==> events[i] != GatewayEvent::AcceptFailed,
    ensures
        gateway_run(GatewayState::Listening, events).0 == GatewayState::Listening,
        count_of(gateway_run(GatewayState::Listening, events).1, GatewayAction::SpawnSession)
            == count_of(events, GatewayEvent::Accepted),
    decreases events.len(),
{
    if events.len() > 0 {
        let (next, action) = gateway_step(GatewayState::Listening, events[0]);
        let rest = gateway_run(next, events.drop_first()).1;
        one_session_per_connection(events.drop_first());
        assert((seq![action] + rest).drop_first() =~= rest);
    }
}

/// A gateway that has stopped asks for nothing more.
pub proof fn stopped_is_final(stop: GatewayStop, event: GatewayEvent)
    ensures
        gateway_step(GatewayState::Stopped(stop), event) == (
            GatewayState::Stopped(stop),
            GatewayAction::Idle,
        ),
{
}


} // verus!
