//! The simulation engine: the sole writer of the world.
//!
//! The engine spawns the entities once and then, tick after tick, moves
//! each of them and publishes the whole world as a new snapshot. Where the
//! entities are placed and how far they move is drawn by the caller; what
//! is decided here is which entities exist and what is published.

use vstd::prelude::*;
use crate::broadcast::{Broadcaster, EngineFault};
use crate::snapshot::{EntityState, Position};

verus! {

/// The time between two ticks, in milliseconds.
pub const TICK_INTERVAL_MS: u64 = 30;

/// The bit pattern of 200.0: entities are spawned with each coordinate
/// between -200.0 and 200.0.
pub const SPAWN_EXTENT_BITS: u32 = 0x4348_0000;

/// The bit pattern of 2.0: at each tick an entity moves by between -2.0 and
/// 2.0 on each axis.
pub const MAX_SPEED_BITS: u32 = 0x4000_0000;

/// The ids below `count`.
pub open spec fn ids_below(count: nat) -> Set<u32> {
    Set::new(|id: u32| (id as nat) < count)
}

/// The world made of one entity for each of the given positions: the
/// entity `i` stands at the `i`-th of them.
pub open spec fn spawned(positions: Seq<Position>) -> Map<u32, Position> {
    Map::new(|id: u32| (id as nat) < positions.len(), |id: u32| positions[id as int])
}

/// The world after a tick: the same entities, each at the position that
/// `next` gives it, or where it stood if `next` does not hold it.
pub open spec fn moved(world: Map<u32, Position>, next: Map<u32, Position>) -> Map<u32, Position> {
    Map::new(
        |id: u32| world.contains_key(id),
        |id: u32|
            if next.contains_key(id) {
                next[id]
            } else {
                world[id]
            },
    )
}

/// The world after a run of ticks, the first of them first.
pub open spec fn after_ticks(world: Map<u32, Position>, ticks: Seq<Map<u32, Position>>) -> Map<
    u32,
    Position,
>
    decreases ticks.len(),
{
    if ticks.len() == 0 {
        world
    } else {
        moved(after_ticks(world, ticks.drop_last()), ticks.last())
    }
}

/// There are as many ids below `count` as `count` says, as long as 32 bits
/// can hold them all.
pub proof fn lemma_ids_below(count: nat)
    requires
        count <= u32::MAX + 1,
    ensures
        ids_below(count).finite(),
        ids_below(count).len() == count,
    decreases count,
{
    if count == 0 {
        assert(ids_below(count) =~= Set::<u32>::empty());
    } else {
        let rest = (count - 1) as nat;
        lemma_ids_below(rest);
        assert(ids_below(count) =~= ids_below(rest).insert(rest as u32));
    }
}

/// Spawning `n` entities gives a world of exactly `n` entities, whose ids
/// are the numbers from 0 up to, and without, `n`.
pub proof fn lemma_spawned_population(positions: Seq<Position>)
    requires
        positions.len() <= u32::MAX + 1,
    ensures
        spawned(positions).dom() == ids_below(positions.len()),
        spawned(positions).dom().finite(),
        spawned(positions).len() == positions.len(),
        forall|id: u32| #[trigger]
            spawned(positions).contains_key(id) <==> (id as nat) < positions.len(),
{
    lemma_ids_below(positions.len());
    assert(spawned(positions).dom() =~= ids_below(positions.len()));
}

/// A tick neither spawns nor removes an entity.
pub proof fn lemma_moved_population(world: Map<u32, Position>, next: Map<u32, Position>)
    ensures
        moved(world, next).dom() == world.dom(),
        moved(world, next).len() == world.len(),
{
    assert(moved(world, next).dom() =~= world.dom());
}

/// The set of entities is fixed once they are spawned: however many ticks
/// go by, the world holds the same ids.
pub proof fn lemma_population_is_constant(
    world: Map<u32, Position>,
    ticks: Seq<Map<u32, Position>>,
)
    ensures
        after_ticks(world, ticks).dom() == world.dom(),
        after_ticks(world, ticks).len() == world.len(),
    decreases ticks.len(),
{
    if ticks.len() > 0 {
        lemma_population_is_constant(world, ticks.drop_last());
        lemma_moved_population(after_ticks(world, ticks.drop_last()), ticks.last());
    }
}

/// Adds one entity for each of the given positions to `beads`: the entity
/// `i` at the `i`-th of them. An entity that `beads` already holds under
/// such an id is placed anew.
pub fn spawn_entities(beads: &mut EntityState, positions: &Vec<Position>)
    requires
        positions@.len() <= u32::MAX + 1,
    ensures
        final(beads)@ == old(beads)@.union_prefer_right(spawned(positions@)),
{
    let ghost before = beads@;
    let mut count: usize = 0;
    while count < positions.len()
        invariant
            count <= positions@.len() <= u32::MAX + 1,
            beads@ == before.union_prefer_right(spawned(positions@.take(count as int))),
        decreases positions@.len() - count,
    {
        let id: u32 = count as u32;
        beads.insert(id, positions[count]);
        count = count + 1;
        assert(beads@ =~= before.union_prefer_right(spawned(positions@.take(count as int))));
    }
    assert(positions@.take(count as int) =~= positions@);
}

/// Moves the entities of `beads` to where `next` places them. An entity
/// that `next` does not hold stays where it is, and an entity that only
/// `next` holds is not taken in.
pub fn advance(beads: &mut EntityState, next: &EntityState)
    ensures
        final(beads)@ == moved(old(beads)@, next@),
        final(beads)@.dom() == old(beads)@.dom(),
{
    let ghost before = beads@;
    let targets = next.entries();
    let mut done: usize = 0;
    while done < targets.len()
        invariant
            done <= targets@.len(),
            beads@.dom() == before.dom(),
            forall|i: int|
                0 <= i < targets@.len() ==> next@.contains_key(#[trigger] targets@[i].0)
                    && next@[targets@[i].0] == targets@[i].1,
            forall|i: int, j: int|
                0 <= i < j < targets@.len() ==> #[trigger] targets@[i].0
                    != #[trigger] targets@[j].0,
            forall|id: u32|
                before.contains_key(id) ==> #[trigger] beads@[id] == (if exists|i: int|
                    0 <= i < done && targets@[i].0 == id {
                    next@[id]
                } else {
                    before[id]
                }),
        decreases targets@.len() - done,
    {
        let (id, position) = targets[done];
        let ghost earlier = beads@;
        if beads.contains(id) {
            beads.insert(id, position);
        }
        done = done + 1;
        proof {
            assert(beads@.dom() =~= before.dom());
            assert forall|k: u32| before.contains_key(k) implies #[trigger] beads@[k] == (
            if exists|i: int| 0 <= i < done && targets@[i].0 == k {
                next@[k]
            } else {
                before[k]
            }) by {
                if k == id {
                    assert(targets@[done - 1].0 == k);
                } else {
                    assert(beads@[k] == earlier[k]);
                    if exists|i: int| 0 <= i < done && targets@[i].0 == k {
                        let i = choose|i: int| 0 <= i < done && targets@[i].0 == k;
                        assert(0 <= i < done - 1 && targets@[i].0 == k);
                    }
                }
            }
        }
    }
    proof {
        next.lemma_finite();
        assert forall|k: u32| before.contains_key(k) implies beads@[k] == moved(before, next@)[k] by {
            if next@.contains_key(k) {
                lemma_listed_everything(next@, targets@, k);
            }
        }
        assert(beads@ =~= moved(before, next@));
    }
}

/// A list that names as many distinct keys of a finite map as the map has
/// names every key of it.
proof fn lemma_listed_everything(
    map: Map<u32, Position>,
    listed: Seq<(u32, Position)>,
    key: u32,
)
    requires
        map.dom().finite(),
        listed.len() == map.len(),
        forall|i: int| 0 <= i < listed.len() ==> map.contains_key(#[trigger] listed[i].0),
        forall|i: int, j: int|
            0 <= i < j < listed.len() ==> #[trigger] listed[i].0 != #[trigger] listed[j].0,
        map.contains_key(key),
    ensures
        exists|i: int| 0 <= i < listed.len() && listed[i].0 == key,
{
    let keys = listed.map_values(|entry: (u32, Position)| entry.0);
    assert(keys.no_duplicates());
    keys.unique_seq_to_set();
    assert(keys.to_set().subset_of(map.dom())) by {
        assert forall|k: u32| keys.to_set().contains(k) implies map.dom().contains(k) by {
            let i = choose|i: int| 0 <= i < keys.len() && keys[i] == k;
            assert(map.contains_key(listed[i].0));
        }
    }
    vstd::set_lib::lemma_subset_equality(keys.to_set(), map.dom());
    assert(keys.to_set().contains(key));
    let i = choose|i: int| 0 <= i < keys.len() && keys[i] == key;
    assert(listed[i].0 == key);
}

/// One tick of the engine: moves the entities of `beads` to where `next`
/// places them, then publishes the whole world as the latest snapshot.
/// The world is moved whether or not the snapshot could be published.
pub fn tick(beads: &mut EntityState, next: &EntityState, broadcaster: &mut Broadcaster) -> (outcome:
    Result<u64, EngineFault>)
    ensures
        final(beads)@ == moved(old(beads)@, next@),
        final(beads)@.dom() == old(beads)@.dom(),
        match outcome {
            Ok(generation) => {
                &&& old(broadcaster).generation() < u64::MAX
                &&& generation == old(broadcaster).generation() + 1
                &&& final(broadcaster).generation() == generation
                &&& final(broadcaster).latest() == final(beads)@
            },
            Err(fault) => {
                &&& old(broadcaster).generation() == u64::MAX
                &&& fault == EngineFault::GenerationsExhausted
                &&& final(broadcaster).generation() == old(broadcaster).generation()
                &&& final(broadcaster).latest() == old(broadcaster).latest()
            },
        },
{
    advance(beads, next);
    broadcaster.publish(beads.clone())
}

} // verus!
