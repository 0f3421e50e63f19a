//! The viewer's side of the protocol: the requests it sends, and how it
//! brings the entities it draws in line with what the server reports.

use vstd::prelude::*;
use crate::protocol::{connected_status, ConnectionParams, ConnectionParamsView, ConnectionType};
use crate::scalar::Scalar;
use crate::snapshot::{Boundary, EntityState, Position};

verus! {

/// The bit pattern of 5000.0: the `x` at which a viewer parks an entity
/// that the server no longer reports, far outside any window.
pub const HIDDEN_X_BITS: u32 = 0x459c_4000;

/// The greatest length of the answer to a handshake that a viewer reads,
/// in bytes.
pub const MAX_HANDSHAKE_LEN: usize = 80000;

/// The greatest length of the answer to a query that a viewer reads, in
/// bytes.
pub const MAX_REPLY_LEN: usize = 8000;

/// The length in bytes above which a reply is taken to hold entities.
/// Shorter ones are skipped without being decoded.
pub const EMPTY_REPLY_LEN: usize = 3;

/// An entity that a viewer draws: the id that the server knows it by, and
/// where it is drawn.
#[derive(Clone, Copy, Debug, PartialEq, Eq, Structural, Hash)]
pub struct Sprite {
    pub id: u32,
    pub position: Position,
}

/// The envelope of a handshake request.
pub open spec fn init_envelope() -> ConnectionParamsView {
    ConnectionParamsView {
        status: connected_status(),
        connection_type: ConnectionType::Init,
        data: None,
        boundary: None,
    }
}

/// The envelope of a query for the entities in view of `boundary`.
pub open spec fn boundary_envelope(boundary: Boundary) -> ConnectionParamsView {
    ConnectionParamsView {
        status: connected_status(),
        connection_type: ConnectionType::GetEntity,
        data: None,
        boundary: Some(boundary),
    }
}

/// Where a sprite is drawn once the server has reported `visible`:
/// at the reported position if it is among them, and else where it was,
/// with its `x` moved out of sight.
pub open spec fn reconciled(entity: Sprite, visible: Map<u32, Position>) -> Sprite {
    if visible.contains_key(entity.id) {
        Sprite { id: entity.id, position: visible[entity.id] }
    } else {
        Sprite {
            id: entity.id,
            position: Position {
                x: Scalar { bits: HIDDEN_X_BITS },
                y: entity.position.y,
                z: entity.position.z,
            },
        }
    }
}

/// The request that opens a session.
pub fn init_request() -> (request: ConnectionParams)
    ensures
        request@ == init_envelope(),
{
    ConnectionParams {
        status: "Connected".to_owned(),
        connection_type: ConnectionType::Init,
        data: None,
        boundary: None,
    }
}

/// The request for the entities in view of `boundary`.
pub fn boundary_request(boundary: Boundary) -> (request: ConnectionParams)
    ensures
        request@ == boundary_envelope(boundary),
{
    ConnectionParams {
        status: "Connected".to_owned(),
        connection_type: ConnectionType::GetEntity,
        data: None,
        boundary: Some(boundary),
    }
}

/// Whether a reply of `length` bytes is long enough to hold entities.
pub fn carries_entities(length: usize) -> (worth_decoding: bool)
    ensures
        worth_decoding == (length > EMPTY_REPLY_LEN),
{
    length > EMPTY_REPLY_LEN
}

/// The entities to draw after the handshake: one for each entity that the
/// server's answer holds, each once, at the position given there. `None`
/// if the answer carries no world.
pub fn sprites_for(handshake: &ConnectionParams) -> (sprites: Option<Vec<Sprite>>)
    ensures
        match (sprites, handshake@.data) {
            (Some(list), Some(world)) => {
                &&& list@.len() == world.len()
                &&& forall|i: int|
                    0 <= i < list@.len() ==> world.contains_key(#[trigger] list@[i].id)
                        && world[list@[i].id] == list@[i].position
                &&& forall|i: int, j: int|
                    0 <= i < j < list@.len() ==> #[trigger] list@[i].id != #[trigger] list@[j].id
            },
            (None, None) => true,
            _ => false,
        },
{
    match &handshake.data {
        None => None,
        Some(world) => {
            let entries = world.entries();
            let mut list: Vec<Sprite> = Vec::new();
            let mut done: usize = 0;
            while done < entries.len()
                invariant
                    done <= entries@.len(),
                    list@.len() == done,
                    forall|i: int|
                        0 <= i < done ==> #[trigger] list@[i] == (Sprite {
                            id: entries@[i].0,
                            position: entries@[i].1,
                        }),
                decreases entries@.len() - done,
            {
                let (id, position) = entries[done];
                list.push(Sprite { id, position });
                done = done + 1;
            }
            proof {
                assert forall|i: int| 0 <= i < list@.len() implies world@.contains_key(
                    #[trigger] list@[i].id,
                ) && world@[list@[i].id] == list@[i].position by {
                    assert(world@.contains_key(entries@[i].0));
                }
                assert forall|i: int, j: int| 0 <= i < j < list@.len() implies #[trigger] list@[i].id
                    != #[trigger] list@[j].id by {
                    assert(entries@[i].0 != entries@[j].0);
                }
            }
            Some(list)
        },
    }
}

/// Brings the sprites in line with a filtered reply: each entity
/// that the reply holds moves to the position reported for it, and each
/// other one is moved out of sight. No entity is added or dropped.
pub fn reconcile(sprites: &mut Vec<Sprite>, visible: &EntityState)
    ensures
        final(sprites)@.len() == old(sprites)@.len(),
        forall|i: int|
            0 <= i < old(sprites)@.len() ==> #[trigger] final(sprites)@[i] == reconciled(
                old(sprites)@[i],
                visible@,
            ),
{
    let ghost before = sprites@;
    let mut done: usize = 0;
    while done < sprites.len()
        invariant
            done <= sprites@.len(),
            sprites@.len() == before.len(),
            forall|i: int| 0 <= i < done ==> #[trigger] sprites@[i] == reconciled(before[i], visible@),
            forall|i: int| done <= i < before.len() ==> #[trigger] sprites@[i] == before[i],
        decreases sprites@.len() - done,
    {
        let entity = sprites[done];
        let position = match visible.get(entity.id) {
            Some(reported) => reported,
            None => Position {
                x: Scalar::from_bits(HIDDEN_X_BITS),
                y: entity.position.y,
                z: entity.position.z,
            },
        };
        sprites.set(done, Sprite { id: entity.id, position });
        done = done + 1;
    }
}

} // verus!
