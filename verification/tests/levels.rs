use cs2_buttplug::level::Level;

fn level(number: f64) -> Level {
    Level { bits: number.to_bits() }
}

fn samples() -> Vec<f64> {
    let mut samples = vec![
        0.0,
        -0.0,
        0.5,
        -0.5,
        0.999999,
        1.0,
        1.0 + f64::EPSILON,
        1.0 - f64::EPSILON / 2.0,
        -1.0,
        1.5,
        2.0,
        2.999999999,
        3.0,
        100.25,
        4294967294.5,
        4294967295.0,
        4294967295.5,
        4294967296.0,
        1e15,
        1e300,
        -1e300,
        f64::MAX,
        f64::MIN,
        f64::MIN_POSITIVE,
        -f64::MIN_POSITIVE,
        f64::from_bits(1),
        f64::from_bits(0x000F_FFFF_FFFF_FFFF),
        f64::INFINITY,
        f64::NEG_INFINITY,
        f64::NAN,
        -f64::NAN,
        f64::from_bits(0x7FF0_0000_0000_0001),
        f64::from_bits(0xFFFF_FFFF_FFFF_FFFF),
    ];
    let mut bits: u64 = 0x9E37_79B9_7F4A_7C15;
    for _ in 0..2000 {
        bits = bits.wrapping_mul(6364136223846793005).wrapping_add(1442695040888963407);
        samples.push(f64::from_bits(bits));
        samples.push((bits >> 30) as f64 / 1024.0);
    }
    samples
}

#[test]
fn capping_agrees_with_the_minimum_with_one() {
    for number in samples() {
        assert_eq!(level(number).at_most_one().bits, number.min(1.0).to_bits());
    }
}

#[test]
fn capping_on_given_levels() {
    assert_eq!(level(0.25).at_most_one(), level(0.25));
    assert_eq!(level(7.0).at_most_one(), level(1.0));
    assert_eq!(level(-3.0).at_most_one(), level(-3.0));
    assert_eq!(level(f64::NAN).at_most_one(), level(1.0));
    assert_eq!(level(-f64::NAN).at_most_one(), level(1.0));
    assert_eq!(level(f64::INFINITY).at_most_one(), level(1.0));
    assert_eq!(level(f64::NEG_INFINITY).at_most_one(), level(f64::NEG_INFINITY));
}

#[test]
fn capping_twice_is_capping_once() {
    for number in samples() {
        let once = level(number).at_most_one();
        assert_eq!(once.at_most_one(), once);
    }
}

#[test]
fn capping_keeps_the_order() {
    let numbers = samples();
    for pair in numbers.windows(2) {
        let (low, high) = (pair[0].min(pair[1]), pair[0].max(pair[1]));
        if pair[0].is_nan() || pair[1].is_nan() {
            continue;
        }
        let low = f64::from_bits(level(low).at_most_one().bits);
        let high = f64::from_bits(level(high).at_most_one().bits);
        assert!(low <= high);
    }
}

#[test]
fn indices_agree_with_the_minimum_and_the_cast() {
    for number in samples() {
        for last in [0u32, 1, 2, 3, 99, 100, 101, u32::MAX - 1, u32::MAX] {
            assert_eq!(level(number).index_up_to(last), number.min(last as f64) as u32);
        }
    }
}

#[test]
fn indices_of_given_levels() {
    assert_eq!(level(0.9).index_up_to(4), 0);
    assert_eq!(level(2.7).index_up_to(4), 2);
    assert_eq!(level(9.0).index_up_to(4), 4);
    assert_eq!(level(-2.7).index_up_to(4), 0);
    assert_eq!(level(f64::NAN).index_up_to(4), 4);
}

#[test]
fn zero_is_zero() {
    assert_eq!(f64::from_bits(Level::zero().bits), 0.0);
    assert_eq!(Level::zero(), level(0.0));
}
