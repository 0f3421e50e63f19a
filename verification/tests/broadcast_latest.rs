use simulation_server::broadcast::{Broadcaster, EngineFault};
use simulation_server::scalar::Scalar;
use simulation_server::snapshot::{Boundary, EntityState, Position};

fn spot(x: f32, y: f32) -> Position {
    Position::new(
        Scalar::from_bits(x.to_bits()),
        Scalar::from_bits(y.to_bits()),
        Scalar::from_bits(0.0f32.to_bits()),
    )
}

fn world_of(entries: &[(u32, f32, f32)]) -> EntityState {
    let mut world = EntityState::new();
    for (id, x, y) in entries.iter() {
        world.insert(*id, spot(*x, *y));
    }
    world
}

fn listing(state: &EntityState) -> Vec<(u32, Position)> {
    let mut entries = state.entries();
    entries.sort_by_key(|entry| entry.0);
    entries
}

#[test]
fn a_new_broadcaster_has_published_nothing() {
    let broadcaster = Broadcaster::new();
    assert_eq!(broadcaster.current_generation(), 0);
    let viewer = broadcaster.subscribe();
    assert!(broadcaster.current(&viewer).is_none());
}

#[test]
fn publish_counts_generations_from_one() {
    let mut broadcaster = Broadcaster::new();
    assert_eq!(broadcaster.publish(world_of(&[(0, 1.0, 1.0)])), Ok(1));
    assert_eq!(broadcaster.publish(world_of(&[(0, 2.0, 2.0)])), Ok(2));
    assert_eq!(broadcaster.publish(world_of(&[(0, 3.0, 3.0)])), Ok(3));
    assert_eq!(broadcaster.current_generation(), 3);
}

#[test]
fn a_subscription_sees_nothing_that_was_published_before_it() {
    let mut broadcaster = Broadcaster::new();
    assert_eq!(broadcaster.publish(world_of(&[(0, 1.0, 1.0)])), Ok(1));
    let late = broadcaster.subscribe();
    assert!(broadcaster.current(&late).is_none());
    assert_eq!(broadcaster.publish(world_of(&[(0, 2.0, 2.0)])), Ok(2));
    let seen = broadcaster.current(&late).unwrap();
    assert_eq!(seen.get(0), Some(spot(2.0, 2.0)));
}

#[test]
fn a_slow_subscriber_is_given_the_latest_snapshot_and_no_backlog() {
    let mut broadcaster = Broadcaster::new();
    let slow = broadcaster.subscribe();
    for step in 1..=50u32 {
        assert_eq!(broadcaster.publish(world_of(&[(0, step as f32, 0.0)])), Ok(step as u64));
    }
    let seen = broadcaster.current(&slow).unwrap();
    assert_eq!(seen.get(0), Some(spot(50.0, 0.0)));
    let again = broadcaster.current(&slow).unwrap();
    assert_eq!(again.get(0), Some(spot(50.0, 0.0)));
}

#[test]
fn subscribers_at_one_generation_are_given_the_same_snapshot() {
    let mut broadcaster = Broadcaster::new();
    let early = broadcaster.subscribe();
    assert_eq!(broadcaster.publish(world_of(&[(0, -1.0, 5.0), (1, 5.0, 5.0)])), Ok(1));
    let later = broadcaster.subscribe();
    assert_eq!(
        broadcaster.publish(world_of(&[(0, -2.0, 6.0), (1, 6.0, -6.0), (2, 7.0, 7.0)])),
        Ok(2)
    );
    let first = broadcaster.current(&early).unwrap();
    let second = broadcaster.current(&later).unwrap();
    assert_eq!(listing(&first), listing(&second));
    assert_eq!(first.len(), 3);
}

#[test]
fn views_of_one_generation_differ_only_through_their_boundaries() {
    let mut broadcaster = Broadcaster::new();
    let one = broadcaster.subscribe();
    let other = broadcaster.subscribe();
    assert_eq!(
        broadcaster.publish(world_of(&[(0, -2.0, 6.0), (1, 6.0, -6.0), (2, 7.0, 7.0)])),
        Ok(1)
    );
    let zero = Scalar::from_bits(0.0f32.to_bits());
    let ten = Scalar::from_bits(10.0f32.to_bits());
    let same_a = broadcaster.current(&one).unwrap().filter(Boundary::new(zero, zero));
    let same_b = broadcaster.current(&other).unwrap().filter(Boundary::new(zero, zero));
    assert_eq!(listing(&same_a), listing(&same_b));
    let wide = broadcaster.current(&other).unwrap().filter(Boundary::new(ten, zero));
    assert_eq!(wide.len(), 3);
    for (id, position) in same_a.entries() {
        assert_eq!(wide.get(id), Some(position));
    }
}

#[test]
fn a_reader_does_not_take_the_snapshot_away_from_the_others() {
    let mut broadcaster = Broadcaster::new();
    let readers = [broadcaster.subscribe(), broadcaster.subscribe(), broadcaster.subscribe()];
    assert_eq!(broadcaster.publish(world_of(&[(4, 1.0, 2.0)])), Ok(1));
    for reader in readers.iter() {
        assert_eq!(broadcaster.current(reader).unwrap().get(4), Some(spot(1.0, 2.0)));
    }
    assert_eq!(broadcaster.current_generation(), 1);
}

#[test]
fn resume_goes_on_from_the_given_generation() {
    let mut broadcaster = Broadcaster::resume(world_of(&[(1, 1.0, 1.0)]), 41);
    assert_eq!(broadcaster.current_generation(), 41);
    let fresh = broadcaster.subscribe();
    assert!(broadcaster.current(&fresh).is_none());
    assert_eq!(broadcaster.publish(world_of(&[(1, 2.0, 2.0)])), Ok(42));
    assert_eq!(broadcaster.current(&fresh).unwrap().get(1), Some(spot(2.0, 2.0)));
}

#[test]
fn publish_fails_and_changes_nothing_when_the_generations_are_used_up() {
    let mut broadcaster = Broadcaster::resume(world_of(&[(1, 1.0, 1.0)]), u64::MAX);
    let early = Broadcaster::new().subscribe();
    assert_eq!(
        broadcaster.publish(world_of(&[(2, 2.0, 2.0)])),
        Err(EngineFault::GenerationsExhausted)
    );
    assert_eq!(broadcaster.current_generation(), u64::MAX);
    let seen = broadcaster.current(&early).unwrap();
    assert_eq!(listing(&seen), vec![(1, spot(1.0, 1.0))]);
}

#[test]
fn publish_still_works_one_generation_before_the_end() {
    let mut broadcaster = Broadcaster::resume(EntityState::new(), u64::MAX - 1);
    let viewer = broadcaster.subscribe();
    assert_eq!(broadcaster.publish(world_of(&[(2, 2.0, 2.0)])), Ok(u64::MAX));
    assert_eq!(broadcaster.current(&viewer).unwrap().get(2), Some(spot(2.0, 2.0)));
}
