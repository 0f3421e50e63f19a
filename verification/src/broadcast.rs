//! The snapshot broadcaster: a single slot that holds the latest snapshot
//! and counts how many were published.
//!
//! Any number of subscribers read the slot. None of them takes anything out
//! of it, so a slow subscriber holds nobody up and is never owed a backlog:
//! whoever asks is given the latest snapshot, and that alone.

use vstd::prelude::*;
use crate::snapshot::{visible_part, Boundary, EntityState, Position};

verus! {

/// The engine cannot publish another snapshot.
#[derive(Clone, Copy, Debug, PartialEq, Eq, Structural)]
pub enum EngineFault {
    /// Every generation number has been used.
    GenerationsExhausted,
}

/// The right to read the broadcaster, from a given generation on.
#[derive(Clone, Copy, Debug)]
pub struct Subscription {
    origin: u64,
}

/// The slot that the engine publishes into and the handlers read.
#[derive(Debug)]
pub struct Broadcaster {
    latest: EntityState,
    generation: u64,
}

impl Subscription {
    /// The generation that the broadcaster had reached when the
    /// subscription was made.
    pub closed spec fn origin(self) -> u64 {
        self.origin
    }
}

impl Broadcaster {
    /// The number of snapshots published so far.
    pub closed spec fn generation(&self) -> u64 {
        self.generation
    }

    /// The snapshot published last; the empty map before the first.
    pub closed spec fn latest(&self) -> Map<u32, Position> {
        self.latest@
    }

    /// What a subscriber is given when it asks for the current value: the
    /// latest snapshot, once one has been published since it subscribed.
    pub open spec fn observed(&self, subscription: Subscription) -> Option<Map<u32, Position>> {
        if subscription.origin() < self.generation() {
            Some(self.latest())
        } else {
            None
        }
    }

    /// A broadcaster into which nothing has been published.
    pub fn new() -> (broadcaster: Broadcaster)
        ensures
            broadcaster.generation() == 0,
            broadcaster.latest() == Map::<u32, Position>::empty(),
    {
        Broadcaster { latest: EntityState::new(), generation: 0 }
    }

    /// A broadcaster that takes up where another left off: it holds
    /// `latest` as the snapshot published last and has counted `generation`
    /// publications. An engine that is restarted under running handlers
    /// goes on from here, so that their subscriptions keep their meaning.
    pub fn resume(latest: EntityState, generation: u64) -> (broadcaster: Broadcaster)
        ensures
            broadcaster.generation() == generation,
            broadcaster.latest() == latest@,
    {
        Broadcaster { latest, generation }
    }

    /// The number of snapshots published so far.
    pub fn current_generation(&self) -> (generation: u64)
        ensures
            generation == self.generation(),
    {
        self.generation
    }

    /// A subscription that observes the snapshots published from now on,
    /// and none that is already there.
    pub fn subscribe(&self) -> (subscription: Subscription)
        ensures
            subscription.origin() == self.generation(),
            self.observed(subscription) is None,
    {
        Subscription { origin: self.generation }
    }

    /// Replaces the latest snapshot and returns its generation. Fails, and
    /// changes nothing, only when the generation counter is at its end.
    pub fn publish(&mut self, snapshot: EntityState) -> (outcome: Result<u64, EngineFault>)
        ensures
            match outcome {
                Ok(generation) => {
                    &&& old(self).generation() < u64::MAX
                    &&& generation == old(self).generation() + 1
                    &&& final(self).generation() == generation
                    &&& final(self).latest() == snapshot@
                },
                Err(fault) => {
                    &&& old(self).generation() == u64::MAX
                    &&& fault == EngineFault::GenerationsExhausted
                    &&& final(self).generation() == old(self).generation()
                    &&& final(self).latest() == old(self).latest()
                },
            },
    {
        if self.generation == u64::MAX {
            return Err(EngineFault::GenerationsExhausted);
        }
        self.latest = snapshot;
        self.generation = self.generation + 1;
        Ok(self.generation)
    }

    /// The current value for a subscriber: a copy of the latest snapshot,
    /// or nothing while no snapshot has been published since it subscribed.
    pub fn current(&self, subscription: &Subscription) -> (snapshot: Option<EntityState>)
        ensures
            match snapshot {
                Some(state) => self.observed(*subscription) == Some(state@),
                None => self.observed(*subscription) is None,
            },
    {
        if subscription.origin < self.generation {
            Some(self.latest.clone())
        } else {
            None
        }
    }
}

/// Subscribers that are given a snapshot at the same generation are given
/// the same one, whenever each of them subscribed. What they are sent after
/// filtering therefore differs through their boundaries alone: an entity
/// sent to both is sent at the same position, and with equal boundaries
/// they are sent the same entities.
pub proof fn lemma_broadcast_consistency(
    broadcaster: Broadcaster,
    first: Subscription,
    second: Subscription,
    first_boundary: Boundary,
    second_boundary: Boundary,
)
    requires
        broadcaster.observed(first) is Some,
        broadcaster.observed(second) is Some,
    ensures
        broadcaster.observed(first) == broadcaster.observed(second),
        broadcaster.observed(first) == Some(broadcaster.latest()),
        forall|id: u32|
            visible_part(broadcaster.latest(), first_boundary).contains_key(id) && visible_part(
                broadcaster.latest(),
                second_boundary,
            ).contains_key(id) ==> #[trigger] visible_part(broadcaster.latest(), first_boundary)[id]
                == visible_part(broadcaster.latest(), second_boundary)[id],
        first_boundary == second_boundary ==> visible_part(broadcaster.latest(), first_boundary)
            == visible_part(broadcaster.latest(), second_boundary),
{
}

/// A subscriber is owed no backlog: once a snapshot is published, every
/// subscription made before it observes that snapshot, however many
/// earlier ones it never asked for.
pub proof fn lemma_latest_value_only(
    before: Broadcaster,
    after: Broadcaster,
    snapshot: Map<u32, Position>,
    subscription: Subscription,
)
    requires
        after.generation() == before.generation() + 1,
        after.latest() == snapshot,
        subscription.origin() <= before.generation(),
    ensures
        after.observed(subscription) == Some(snapshot),
{
}

} // verus!
