//! The messages that a viewer and the server exchange, and the reply that
//! each request is owed.
//!
//! On the wire a message is a text object. Turning text into the values of
//! this module, and back, is left to the caller; which requests there are,
//! what each is answered with and which are refused is decided here.

use vstd::prelude::*;
use crate::engine::{after_ticks, ids_below, lemma_population_is_constant, lemma_spawned_population, spawned};
use crate::snapshot::{visible_part, Boundary, EntityState, Position};

verus! {

/// The pause before the reply to a filtered query is written, in
/// milliseconds. It paces a viewer that asks in a tight loop.
pub const RESPONSE_DELAY_MS: u64 = 10;

/// The greatest length of a request, in bytes. A request is read in one
/// piece, and what lies beyond this length is not part of it.
pub const MAX_REQUEST_LEN: usize = 80000;

/// The request type that a message names.
#[derive(Clone, Copy, Debug, PartialEq, Eq, Structural, Hash)]
pub enum ConnectionType {
    Init,
    GetEntity,
}

/// A request, once decoded.
#[derive(Clone, Copy, Debug, PartialEq, Eq, Structural, Hash)]
pub enum ConnectionRequest {
    /// The handshake: asks for the whole world.
    Init,
    /// Asks for the entities in view of the given boundary.
    GetEntity(Boundary),
}

/// Why a message is refused. Each of these ends the connection that the
/// message came in on, and no other.
#[derive(Clone, Copy, Debug, PartialEq, Eq, Structural, Hash)]
pub enum ProtocolError {
    /// The payload is no message at all.
    Undecodable,
    /// The message names a request type that does not exist.
    UnrecognizedType,
    /// The message asks for a filtered view and carries no boundary.
    MissingBoundary,
}

/// The envelope of a message: what a viewer sends with every request, and
/// what the server answers the handshake with.
#[derive(Debug)]
pub struct ConnectionParams {
    pub status: String,
    pub connection_type: ConnectionType,
    pub data: Option<EntityState>,
    pub boundary: Option<Boundary>,
}

/// What an envelope holds.
pub ghost struct ConnectionParamsView {
    pub status: Seq<char>,
    pub connection_type: ConnectionType,
    pub data: Option<Map<u32, Position>>,
    pub boundary: Option<Boundary>,
}

/// What the server writes in answer to a request. The two requests are
/// answered in two shapes: the handshake with an envelope around the whole
/// world, a filtered query with the bare entities.
#[derive(Debug)]
pub enum Reply {
    Handshake(ConnectionParams),
    Entities(EntityState),
}

/// What a reply holds.
pub ghost enum ReplyView {
    Handshake(ConnectionParamsView),
    Entities(Map<u32, Position>),
}

impl View for ConnectionParams {
    type V = ConnectionParamsView;

    open spec fn view(&self) -> ConnectionParamsView {
        ConnectionParamsView {
            status: self.status@,
            connection_type: self.connection_type,
            data: match self.data {
                Some(state) => Some(state@),
                None => None,
            },
            boundary: self.boundary,
        }
    }
}

impl View for Reply {
    type V = ReplyView;

    open spec fn view(&self) -> ReplyView {
        match self {
            Reply::Handshake(envelope) => ReplyView::Handshake(envelope@),
            Reply::Entities(state) => ReplyView::Entities(state@),
        }
    }
}

/// The status that both sides put in their envelopes.
pub open spec fn connected_status() -> Seq<char> {
    "Connected"@
}

/// The name of a request type on the wire.
pub open spec fn tag_of(connection_type: ConnectionType) -> Seq<char> {
    match connection_type {
        ConnectionType::Init => "Init"@,
        ConnectionType::GetEntity => "GetEntity"@,
    }
}

/// The request type that a name on the wire stands for, if any.
pub open spec fn type_named(tag: Seq<char>) -> Option<ConnectionType> {
    if tag == tag_of(ConnectionType::Init) {
        Some(ConnectionType::Init)
    } else if tag == tag_of(ConnectionType::GetEntity) {
        Some(ConnectionType::GetEntity)
    } else {
        None
    }
}

/// The request that a message with the given type name and boundary makes.
/// A handshake needs no boundary and ignores one that is there.
pub open spec fn decoded(tag: Seq<char>, boundary: Option<Boundary>) -> Result<
    ConnectionRequest,
    ProtocolError,
> {
    match type_named(tag) {
        None => Err(ProtocolError::UnrecognizedType),
        Some(ConnectionType::Init) => Ok(ConnectionRequest::Init),
        Some(ConnectionType::GetEntity) => match boundary {
            Some(bounds) => Ok(ConnectionRequest::GetEntity(bounds)),
            None => Err(ProtocolError::MissingBoundary),
        },
    }
}

/// The envelope that answers a handshake: it carries the whole snapshot,
/// unfiltered, and names the request that the viewer is to make next.
pub open spec fn handshake_for(snapshot: Map<u32, Position>) -> ConnectionParamsView {
    ConnectionParamsView {
        status: connected_status(),
        connection_type: ConnectionType::GetEntity,
        data: Some(snapshot),
        boundary: None,
    }
}

/// The reply that a request is owed, given the snapshot that is current
/// when it is served.
pub open spec fn reply_to(request: ConnectionRequest, snapshot: Map<u32, Position>) -> ReplyView {
    match request {
        ConnectionRequest::Init => ReplyView::Handshake(handshake_for(snapshot)),
        ConnectionRequest::GetEntity(boundary) => ReplyView::Entities(
            visible_part(snapshot, boundary),
        ),
    }
}

/// The pause that precedes the reply to a request, in milliseconds.
pub open spec fn delay_before(request: ConnectionRequest) -> u64 {
    match request {
        ConnectionRequest::Init => 0,
        ConnectionRequest::GetEntity(_) => RESPONSE_DELAY_MS,
    }
}

/// The handshake reports every entity: when `n` entities were spawned, the
/// answer to a handshake holds exactly `n` entries, whose ids are the
/// numbers from 0 up to, and without, `n`, after any number of ticks.
pub proof fn lemma_handshake_reports_every_entity(
    positions: Seq<Position>,
    ticks: Seq<Map<u32, Position>>,
)
    requires
        positions.len() <= u32::MAX + 1,
    ensures
        reply_to(ConnectionRequest::Init, after_ticks(spawned(positions), ticks))
            matches ReplyView::Handshake(envelope) && envelope.data matches Some(world) && {
            &&& world.dom() == ids_below(positions.len())
            &&& world.dom().finite()
            &&& world.len() == positions.len()
            &&& forall|id: u32| #[trigger] world.contains_key(id) <==> (id as nat) < positions.len()
        },
{
    lemma_spawned_population(positions);
    lemma_population_is_constant(spawned(positions), ticks);
}

/// Whether two texts are the same.
fn same_text(left: &str, right: &str) -> (same: bool)
    ensures
        same == (left@ == right@),
{
    let left_owned = left.to_owned();
    let right_owned = right.to_owned();
    left_owned == right_owned
}

impl ConnectionType {
    /// The name of the request type on the wire.
    pub fn tag(self) -> (name: String)
        ensures
            name@ == tag_of(self),
    {
        match self {
            ConnectionType::Init => "Init".to_owned(),
            ConnectionType::GetEntity => "GetEntity".to_owned(),
        }
    }

    /// The request type with the given name on the wire. Names are matched
    /// to the letter.
    pub fn from_tag(tag: &str) -> (found: Option<ConnectionType>)
        ensures
            found == type_named(tag@),
    {
        if same_text(tag, "Init") {
            Some(ConnectionType::Init)
        } else if same_text(tag, "GetEntity") {
            Some(ConnectionType::GetEntity)
        } else {
            None
        }
    }
}

/// Decodes the request that a message makes from its type name and its
/// boundary.
pub fn decode_request(tag: &str, boundary: Option<Boundary>) -> (request: Result<
    ConnectionRequest,
    ProtocolError,
>)
    ensures
        request == decoded(tag@, boundary),
{
    match ConnectionType::from_tag(tag) {
        None => Err(ProtocolError::UnrecognizedType),
        Some(ConnectionType::Init) => Ok(ConnectionRequest::Init),
        Some(ConnectionType::GetEntity) => match boundary {
            Some(bounds) => Ok(ConnectionRequest::GetEntity(bounds)),
            None => Err(ProtocolError::MissingBoundary),
        },
    }
}

/// Answers a request from the snapshot that is current when it is served.
pub fn respond(request: ConnectionRequest, snapshot: EntityState) -> (reply: Reply)
    ensures
        reply@ == reply_to(request, snapshot@),
{
    match request {
        ConnectionRequest::Init => Reply::Handshake(
            ConnectionParams {
                status: "Connected".to_owned(),
                connection_type: ConnectionType::GetEntity,
                data: Some(snapshot),
                boundary: None,
            },
        ),
        ConnectionRequest::GetEntity(boundary) => Reply::Entities(snapshot.filter(boundary)),
    }
}

/// The pause that precedes the reply to a request, in milliseconds.
pub fn response_delay_ms(request: ConnectionRequest) -> (delay: u64)
    ensures
        delay == delay_before(request),
{
    match request {
        ConnectionRequest::Init => 0,
        ConnectionRequest::GetEntity(_) => RESPONSE_DELAY_MS,
    }
}

} // verus!
