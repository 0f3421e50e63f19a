//! The connection handler: the state machine that serves one viewer.
//!
//! A handler waits for a request, answers it, and waits again. The caller
//! owns the socket: it reads and decodes, hands the handler what happened
//! as an [`Event`], and carries out the [`Action`] that comes back. A
//! handler keeps no snapshot from one request to the next; each request is
//! answered from the snapshot that comes with it.

use vstd::prelude::*;
use crate::broadcast::{Broadcaster, Subscription};
use crate::protocol::{
    delay_before,
    reply_to,
    respond,
    response_delay_ms,
    ConnectionRequest,
    ProtocolError,
    Reply,
    ReplyView,
};
use crate::snapshot::{EntityState, Position};

verus! {

/// Where a handler stands in the exchange with its viewer.
#[derive(Clone, Copy, Debug, PartialEq, Eq, Structural, Hash)]
pub enum HandlerState {
    /// The next request has not arrived yet.
    AwaitingRequest,
    /// A reply has been handed out and is not yet written.
    Responding,
    /// The connection is over. Nothing leads out of this state.
    Closed,
}

/// What happened on the connection.
#[derive(Debug)]
pub enum Event {
    /// A request arrived and was decoded. With it comes the snapshot that
    /// the broadcaster holds for this handler at this moment.
    Request(ConnectionRequest, EntityState),
    /// A message arrived and was refused.
    Rejected(ProtocolError),
    /// The reply handed out last has been written in full.
    Written,
    /// Reading or writing failed, or the viewer closed the connection.
    Disconnected,
}

/// What an event holds.
pub ghost enum EventView {
    Request(ConnectionRequest, Map<u32, Position>),
    Rejected(ProtocolError),
    Written,
    Disconnected,
}

/// What the caller is to do next.
#[derive(Debug)]
pub enum Action {
    /// Wait for `delay_ms` milliseconds, write `reply`, then report
    /// [`Event::Written`].
    Send { reply: Reply, delay_ms: u64 },
    /// Read the next request.
    Receive,
    /// Close the socket and stop.
    Close,
}

/// What an action holds.
pub ghost enum ActionView {
    Send { reply: ReplyView, delay_ms: u64 },
    Receive,
    Close,
}

impl View for Event {
    type V = EventView;

    open spec fn view(&self) -> EventView {
        match self {
            Event::Request(request, snapshot) => EventView::Request(*request, snapshot@),
            Event::Rejected(error) => EventView::Rejected(*error),
            Event::Written => EventView::Written,
            Event::Disconnected => EventView::Disconnected,
        }
    }
}

impl View for Action {
    type V = ActionView;

    open spec fn view(&self) -> ActionView {
        match self {
            Action::Send { reply, delay_ms } => ActionView::Send {
                reply: reply@,
                delay_ms: *delay_ms,
            },
            Action::Receive => ActionView::Receive,
            Action::Close => ActionView::Close,
        }
    }
}

/// The state that an event leads to. A request is taken only while one is
/// awaited, and the next is awaited only once the reply is written: the
/// requests of one connection are served strictly one after the other.
/// Anything else ends the connection.
pub open spec fn next_state(state: HandlerState, event: EventView) -> HandlerState {
    match (state, event) {
        (HandlerState::AwaitingRequest, EventView::Request(_, _)) => HandlerState::Responding,
        (HandlerState::Responding, EventView::Written) => HandlerState::AwaitingRequest,
        _ => HandlerState::Closed,
    }
}

/// What the caller is told to do when an event arrives in a state.
pub open spec fn action_for(state: HandlerState, event: EventView) -> ActionView {
    match (state, event) {
        (HandlerState::AwaitingRequest, EventView::Request(request, snapshot)) => ActionView::Send {
            reply: reply_to(request, snapshot),
            delay_ms: delay_before(request),
        },
        (HandlerState::Responding, EventView::Written) => ActionView::Receive,
        _ => ActionView::Close,
    }
}

/// The handler of one connection.
#[derive(Debug)]
pub struct ConnectionHandler {
    state: HandlerState,
    subscription: Subscription,
}

impl ConnectionHandler {
    /// Where the handler stands.
    pub closed spec fn state(&self) -> HandlerState {
        self.state
    }

    /// The subscription through which the handler's snapshots are read.
    pub closed spec fn subscription(&self) -> Subscription {
        self.subscription
    }

    /// A handler bound to the given subscription, awaiting its first
    /// request.
    pub fn new(subscription: Subscription) -> (handler: ConnectionHandler)
        ensures
            handler.state() == HandlerState::AwaitingRequest,
            handler.subscription() == subscription,
    {
        ConnectionHandler { state: HandlerState::AwaitingRequest, subscription }
    }

    /// Where the handler stands.
    pub fn current_state(&self) -> (state: HandlerState)
        ensures
            state == self.state(),
    {
        self.state
    }

    /// Whether the connection is over.
    pub fn is_closed(&self) -> (closed: bool)
        ensures
            closed == (self.state() == HandlerState::Closed),
    {
        self.state == HandlerState::Closed
    }

    /// The subscription through which the handler's snapshots are read.
    pub fn current_subscription(&self) -> (subscription: Subscription)
        ensures
            subscription == self.subscription(),
    {
        self.subscription
    }

    /// Serves a request that was read and decoded, from the snapshot that
    /// the broadcaster holds for this handler now. While nothing has been
    /// published since the handler subscribed there is nothing to serve
    /// from: the handler stays as it is and returns `None`, and the caller
    /// asks again after the next publication.
    pub fn serve(&mut self, request: ConnectionRequest, broadcaster: &Broadcaster) -> (action:
        Option<Action>)
        ensures
            final(self).subscription() == old(self).subscription(),
            match broadcaster.observed(old(self).subscription()) {
                Some(snapshot) => {
                    &&& action matches Some(todo)
                    &&& todo@ == action_for(
                        old(self).state(),
                        EventView::Request(request, snapshot),
                    )
                    &&& final(self).state() == next_state(
                        old(self).state(),
                        EventView::Request(request, snapshot),
                    )
                },
                None => action is None && final(self).state() == old(self).state(),
            },
    {
        match broadcaster.current(&self.subscription) {
            Some(snapshot) => Some(self.step(Event::Request(request, snapshot))),
            None => None,
        }
    }

    /// Takes an event in, moves to the state it leads to and returns what
    /// the caller is to do next.
    pub fn step(&mut self, event: Event) -> (action: Action)
        ensures
            final(self).state() == next_state(old(self).state(), event@),
            action@ == action_for(old(self).state(), event@),
            final(self).subscription() == old(self).subscription(),
    {
        match (self.state, event) {
            (HandlerState::AwaitingRequest, Event::Request(request, snapshot)) => {
                self.state = HandlerState::Responding;
                Action::Send {
                    reply: respond(request, snapshot),
                    delay_ms: response_delay_ms(request),
                }
            },
            (HandlerState::Responding, Event::Written) => {
                self.state = HandlerState::AwaitingRequest;
                Action::Receive
            },
            _ => {
                self.state = HandlerState::Closed;
                Action::Close
            },
        }
    }
}

/// Whatever the state, a handler that is handed the same request and reads
/// the same broadcaster does the same: the subscription decides whether a
/// snapshot is there, never which one.
pub proof fn lemma_same_source_same_reply(
    broadcaster: Broadcaster,
    first: Subscription,
    second: Subscription,
    request: ConnectionRequest,
)
    requires
        broadcaster.observed(first) is Some,
        broadcaster.observed(second) is Some,
    ensures
        reply_to(request, broadcaster.observed(first)->0) == reply_to(
            request,
            broadcaster.observed(second)->0,
        ),
{
}

/// A closed connection stays closed: whatever arrives, the handler asks
/// for the socket to be closed and goes nowhere.
pub proof fn lemma_closed_is_final(event: EventView)
    ensures
        next_state(HandlerState::Closed, event) == HandlerState::Closed,
        action_for(HandlerState::Closed, event) == ActionView::Close,
{
}

/// A message that is refused, and a connection that fails, end the
/// connection in whatever state the handler is.
pub proof fn lemma_failure_closes(state: HandlerState, error: ProtocolError)
    ensures
        next_state(state, EventView::Rejected(error)) == HandlerState::Closed,
        action_for(state, EventView::Rejected(error)) == ActionView::Close,
        next_state(state, EventView::Disconnected) == HandlerState::Closed,
        action_for(state, EventView::Disconnected) == ActionView::Close,
{
}

} // verus!
