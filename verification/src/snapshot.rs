//! The world state: positions keyed by entity id, and the boundary filter
//! that decides which of them a viewer is sent.

use std::collections::HashMap;
use vstd::prelude::*;
use vstd::std_specs::hash::*;
use vstd::std_specs::iter::IteratorSpec;
use crate::scalar::Scalar;

verus! {

/// Where an entity stands. The simulation is planar: `z` is carried along
/// and never read.
#[derive(Clone, Copy, Debug, PartialEq, Eq, Structural, Hash)]
pub struct Position {
    pub x: Scalar,
    pub y: Scalar,
    pub z: Scalar,
}

/// A viewer's bound on each axis.
#[derive(Clone, Copy, Debug, PartialEq, Eq, Structural, Hash)]
pub struct Boundary {
    pub max_x: Scalar,
    pub max_y: Scalar,
}

/// Whether an entity at `position` is reported to a viewer with the given
/// boundary. It is as soon as it lies below the bound on either axis: an
/// entity far beyond one bound is still reported when it is below the other.
pub open spec fn in_view(position: Position, boundary: Boundary) -> bool {
    position.x.lt_spec(boundary.max_x) || position.y.lt_spec(boundary.max_y)
}

/// The part of a snapshot that a viewer with the given boundary is sent:
/// the entities in view, each at the position the snapshot gives it.
pub open spec fn visible_part(snapshot: Map<u32, Position>, boundary: Boundary) -> Map<
    u32,
    Position,
> {
    snapshot.restrict(Set::new(|id: u32| in_view(snapshot[id], boundary)))
}

/// The position of every entity at one tick, keyed by entity id.
///
/// Its view is the map from id to position.
#[derive(Debug)]
pub struct EntityState {
    entity_atrib: HashMap<u32, Position>,
}

impl View for EntityState {
    type V = Map<u32, Position>;

    closed spec fn view(&self) -> Map<u32, Position> {
        self.entity_atrib@
    }
}

impl Clone for EntityState {
    /// A copy that holds the same entities at the same positions.
    fn clone(&self) -> (copy: EntityState)
        ensures
            copy@ == self@,
    {
        EntityState { entity_atrib: self.entity_atrib.clone() }
    }
}

impl Position {
    /// The position with the given coordinates.
    pub fn new(x: Scalar, y: Scalar, z: Scalar) -> (position: Position)
        ensures
            position == (Position { x, y, z }),
    {
        Position { x, y, z }
    }

    /// Whether a viewer with the given boundary is sent an entity that
    /// stands here.
    pub fn is_in_view(&self, boundary: Boundary) -> (seen: bool)
        ensures
            seen == in_view(*self, boundary),
    {
        self.x.lt(boundary.max_x) || self.y.lt(boundary.max_y)
    }
}

impl Boundary {
    /// The boundary with the given bound on each axis.
    pub fn new(max_x: Scalar, max_y: Scalar) -> (boundary: Boundary)
        ensures
            boundary == (Boundary { max_x, max_y }),
    {
        Boundary { max_x, max_y }
    }
}

impl EntityState {
    /// A state without entities.
    pub fn new() -> (state: EntityState)
        ensures
            state@ == Map::<u32, Position>::empty(),
    {
        EntityState { entity_atrib: HashMap::new() }
    }

    /// A state holds finitely many entities.
    pub proof fn lemma_finite(&self)
        ensures
            self@.dom().finite(),
    {
        broadcast use group_hash_axioms;

    }

    /// Places the entity `id` at `position`, whether or not it was there
    /// before, and returns where it stood.
    pub fn insert(&mut self, id: u32, position: Position) -> (previous: Option<Position>)
        ensures
            final(self)@ == old(self)@.insert(id, position),
            previous == (if old(self)@.contains_key(id) {
                Some(old(self)@[id])
            } else {
                None
            }),
    {
        broadcast use group_hash_axioms;

        self.entity_atrib.insert(id, position)
    }

    /// Where the entity `id` stands, if the state holds it.
    pub fn get(&self, id: u32) -> (found: Option<Position>)
        ensures
            found == (if self@.contains_key(id) {
                Some(self@[id])
            } else {
                None
            }),
    {
        broadcast use group_hash_axioms;

        match self.entity_atrib.get(&id) {
            Some(position) => Some(*position),
            None => None,
        }
    }

    /// Whether the state holds the entity `id`.
    pub fn contains(&self, id: u32) -> (held: bool)
        ensures
            held == self@.contains_key(id),
    {
        broadcast use group_hash_axioms;

        self.entity_atrib.contains_key(&id)
    }

    /// The number of entities.
    pub fn len(&self) -> (count: usize)
        ensures
            count == self@.len(),
    {
        broadcast use group_hash_axioms;

        self.entity_atrib.len()
    }

    /// Every entity with its position, each entity once, in no particular
    /// order.
    pub fn entries(&self) -> (listed: Vec<(u32, Position)>)
        ensures
            listed@.len() == self@.len(),
            forall|i: int|
                0 <= i < listed@.len() ==> self@.contains_key(#[trigger] listed@[i].0)
                    && self@[listed@[i].0] == listed@[i].1,
            forall|i: int, j: int|
                0 <= i < j < listed@.len() ==> #[trigger] listed@[i].0 != #[trigger] listed@[j].0,
    {
        broadcast use group_hash_axioms;

        let mut listed: Vec<(u32, Position)> = Vec::new();
        let ghost items = spec_hash_map_iter(&self.entity_atrib).remaining();
        for (id, position) in it: self.entity_atrib.iter()
            invariant
                it.seq() == items,
                items.no_duplicates(),
                listed@.len() == it.index(),
                it.index() <= items.len(),
                forall|i: int|
                    0 <= i < listed@.len() ==> #[trigger] listed@[i] == (*items[i].0, *items[i].1),
        {
            listed.push((*id, *position));
        }
        proof {
            assert(listed@.len() == items.len());
            assert forall|i: int| 0 <= i < listed@.len() implies self@.contains_key(
                #[trigger] listed@[i].0,
            ) && self@[listed@[i].0] == listed@[i].1 by {
                assert(self@.contains_key(*items[i].0) && self@[*items[i].0] == *items[i].1);
            }
            assert forall|i: int, j: int| 0 <= i < j < listed@.len() implies #[trigger] listed@[i].0
                != #[trigger] listed@[j].0 by {
                assert(self@.contains_key(*items[i].0) && self@[*items[i].0] == *items[i].1);
                assert(self@.contains_key(*items[j].0) && self@[*items[j].0] == *items[j].1);
                if listed@[i].0 == listed@[j].0 {
                    assert(items[i] == items[j]);
                }
            }
        }
        listed
    }

    /// The entities that a viewer with the given boundary is sent, each at
    /// the position it has in `self`.
    pub fn filter(&self, boundary: Boundary) -> (kept: EntityState)
        ensures
            kept@ == visible_part(self@, boundary),
    {
        broadcast use group_hash_axioms;

        let mut kept = EntityState::new();
        for (id, position) in it: self.entity_atrib.iter()
            invariant
                it.seq() == spec_hash_map_iter(&self.entity_atrib).remaining(),
                forall|k: u32| #[trigger]
                    kept@.contains_key(k) ==> self@.contains_key(k) && in_view(self@[k], boundary)
                        && kept@[k] == self@[k],
                forall|j: int|
                    0 <= j < it.index() && in_view(*it.seq()[j].1, boundary)
                        ==> kept@.contains_key(*it.seq()[j].0),
        {
            proof {
                let items = it.seq();
                let j = it.index();
                assert(items[j] == (id, position));
                assert(self@.contains_key(*items[j].0) && self@[*items[j].0] == *items[j].1);
            }
            if position.is_in_view(boundary) {
                let ghost before = kept@;
                kept.entity_atrib.insert(*id, *position);
                assert(kept@ == before.insert(*id, *position));
            }
        }
        assert(kept@ =~= visible_part(self@, boundary));
        kept
    }
}

/// Filtering yields a part of the snapshot: every entity that is sent is an
/// entity of the snapshot, at the position the snapshot gives it, and it is
/// in view.
pub proof fn lemma_filter_is_subset(snapshot: Map<u32, Position>, boundary: Boundary)
    ensures
        visible_part(snapshot, boundary).submap_of(snapshot),
        visible_part(snapshot, boundary).dom().subset_of(snapshot.dom()),
        forall|id: u32| #[trigger]
            visible_part(snapshot, boundary).contains_key(id) <==> snapshot.contains_key(id)
                && in_view(snapshot[id], boundary),
{
}

/// Filtering is stable: filtering what was sent once more, with the same
/// boundary, changes nothing.
pub proof fn lemma_filter_is_stable(snapshot: Map<u32, Position>, boundary: Boundary)
    ensures
        visible_part(visible_part(snapshot, boundary), boundary) == visible_part(
            snapshot,
            boundary,
        ),
{
    assert(visible_part(visible_part(snapshot, boundary), boundary) =~= visible_part(
        snapshot,
        boundary,
    ));
}

/// Two views of one snapshot differ only through their boundaries: an
/// entity sent to both viewers is sent at the same position, an entity
/// sent to one viewer alone is out of the other's view, and viewers with
/// the same boundary are sent the same entities.
pub proof fn lemma_views_differ_by_boundary_only(
    snapshot: Map<u32, Position>,
    first: Boundary,
    second: Boundary,
)
    ensures
        forall|id: u32|
            visible_part(snapshot, first).contains_key(id) && visible_part(
                snapshot,
                second,
            ).contains_key(id) ==> #[trigger] visible_part(snapshot, first)[id] == visible_part(
                snapshot,
                second,
            )[id],
        forall|id: u32|
            #[trigger] visible_part(snapshot, first).contains_key(id) && !visible_part(
                snapshot,
                second,
            ).contains_key(id) ==> !in_view(snapshot[id], second),
        first == second ==> visible_part(snapshot, first) == visible_part(snapshot, second),
{
}

} // verus!
