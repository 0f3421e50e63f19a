use simulation_server::client::{HIDDEN_X_BITS, MAX_HANDSHAKE_LEN, MAX_REPLY_LEN};
use simulation_server::engine::{MAX_SPEED_BITS, SPAWN_EXTENT_BITS, TICK_INTERVAL_MS};
use simulation_server::protocol::{MAX_REQUEST_LEN, RESPONSE_DELAY_MS};
use simulation_server::scalar::{Scalar, INFINITY_BITS, SIGN_BIT};

fn samples() -> Vec<f32> {
    vec![
        0.0,
        -0.0,
        1.0,
        -1.0,
        2.0,
        -2.0,
        0.5,
        -0.5,
        200.0,
        -200.0,
        199.99998,
        5000.0,
        1.0e-40,
        -1.0e-40,
        f32::MIN_POSITIVE,
        -f32::MIN_POSITIVE,
        f32::EPSILON,
        f32::MAX,
        f32::MIN,
        f32::INFINITY,
        f32::NEG_INFINITY,
        f32::NAN,
        -f32::NAN,
        f32::from_bits(0x7f80_0001),
        f32::from_bits(0xffff_ffff),
        f32::from_bits(1),
        f32::from_bits(0x8000_0001),
        3.1415927,
        -3.1415927,
        16777216.0,
        16777218.0,
    ]
}

#[test]
fn lt_agrees_with_the_native_order_on_every_pair() {
    let values = samples();
    for a in values.iter() {
        for b in values.iter() {
            let ours = Scalar::from_bits(a.to_bits()).lt(Scalar::from_bits(b.to_bits()));
            assert_eq!(ours, a < b, "{:?} < {:?}", a, b);
        }
    }
}

#[test]
fn lt_agrees_with_the_native_order_on_a_sweep_of_patterns() {
    let mut bits: u32 = 0;
    let mut patterns: Vec<u32> = Vec::new();
    loop {
        patterns.push(bits);
        match bits.checked_add(0x0123_4567) {
            Some(next) => bits = next,
            None => break,
        }
    }
    for a in patterns.iter() {
        for b in patterns.iter() {
            let ours = Scalar::from_bits(*a).lt(Scalar::from_bits(*b));
            assert_eq!(ours, f32::from_bits(*a) < f32::from_bits(*b), "{:#x} < {:#x}", a, b);
        }
    }
}

#[test]
fn is_nan_agrees_with_the_native_test() {
    for value in samples() {
        assert_eq!(Scalar::from_bits(value.to_bits()).is_nan(), value.is_nan(), "{:?}", value);
    }
    assert!(!Scalar::from_bits(INFINITY_BITS).is_nan());
    assert!(Scalar::from_bits(INFINITY_BITS + 1).is_nan());
    assert!(!Scalar::from_bits(SIGN_BIT | INFINITY_BITS).is_nan());
    assert!(Scalar::from_bits(SIGN_BIT | (INFINITY_BITS + 1)).is_nan());
}

#[test]
fn the_two_zeros_are_equal_in_order_and_distinct_in_pattern() {
    let zero = Scalar::from_bits(0.0f32.to_bits());
    let negative_zero = Scalar::from_bits((-0.0f32).to_bits());
    assert!(!zero.lt(negative_zero));
    assert!(!negative_zero.lt(zero));
    assert_ne!(zero, negative_zero);
}

#[test]
fn one_is_less_than_two_and_not_the_reverse() {
    let one = Scalar::from_bits(0x3f80_0000);
    let two = Scalar::from_bits(0x4000_0000);
    assert!(one.lt(two));
    assert!(!two.lt(one));
    assert!(!one.lt(one));
}

#[test]
fn bits_round_trip() {
    for value in samples() {
        assert_eq!(Scalar::from_bits(value.to_bits()).to_bits(), value.to_bits());
    }
    assert_eq!(Scalar::from_bits(0x1234_5678).bits, 0x1234_5678);
}

#[test]
fn the_named_patterns_are_those_of_the_numbers_they_stand_for() {
    assert_eq!(SIGN_BIT, (-0.0f32).to_bits());
    assert_eq!(INFINITY_BITS, f32::INFINITY.to_bits());
    assert_eq!(SPAWN_EXTENT_BITS, 200.0f32.to_bits());
    assert_eq!(MAX_SPEED_BITS, 2.0f32.to_bits());
    assert_eq!(HIDDEN_X_BITS, 5000.0f32.to_bits());
}

#[test]
fn the_tick_takes_thirty_milliseconds_and_the_pause_ten() {
    assert_eq!(TICK_INTERVAL_MS, 30);
    assert_eq!(RESPONSE_DELAY_MS, 10);
}

#[test]
fn the_message_lengths_are_eighty_thousand_and_eight_thousand_bytes() {
    assert_eq!(MAX_REQUEST_LEN, 80000);
    assert_eq!(MAX_HANDSHAKE_LEN, 80000);
    assert_eq!(MAX_REPLY_LEN, 8000);
}
