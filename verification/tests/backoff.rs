use destination::backoff::{ExponentialBackoff, InvalidBackoff, SAMPLE_RANGE};

const HALF: u32 = 0x8000_0000;

#[test]
fn new_refuses_bad_parameters() {
    assert_eq!(ExponentialBackoff::new(0, 0, 0), Err(InvalidBackoff::ZeroMax));
    assert_eq!(ExponentialBackoff::new(5, 0, 200), Err(InvalidBackoff::ZeroMax));
    assert_eq!(ExponentialBackoff::new(11, 10, 0), Err(InvalidBackoff::MinExceedsMax));
    assert_eq!(ExponentialBackoff::new(11, 10, 101), Err(InvalidBackoff::MinExceedsMax));
    assert_eq!(ExponentialBackoff::new(10, 10, 101), Err(InvalidBackoff::JitterTooLarge));
    assert!(ExponentialBackoff::new(10, 10, 100).is_ok());
    assert!(ExponentialBackoff::new(0, 1, 0).is_ok());
}

#[test]
fn new_keeps_parameters() {
    let b = ExponentialBackoff::new(100, 1000, 50).unwrap();
    assert_eq!((b.min(), b.max(), b.jitter()), (100, 1000, 50));
}

#[test]
fn default_is_all_zero() {
    let b = ExponentialBackoff::default();
    assert_eq!((b.min(), b.max(), b.jitter()), (0, 0, 0));
    assert_eq!(b.delay(0, u32::MAX), 0);
    assert_eq!(b.delay(9, u32::MAX), 0);
}

#[test]
fn base_doubles_up_to_the_cap() {
    let b = ExponentialBackoff::new(100, 1000, 0).unwrap();
    assert_eq!(b.base(0), 100);
    assert_eq!(b.base(1), 200);
    assert_eq!(b.base(2), 400);
    assert_eq!(b.base(3), 800);
    assert_eq!(b.base(4), 1000);
    assert_eq!(b.base(5), 1000);
    assert_eq!(b.base(64), 1000);
    assert_eq!(b.base(u32::MAX), 1000);
}

#[test]
fn base_of_zero_minimum_stays_zero() {
    let b = ExponentialBackoff::new(0, 1000, 100).unwrap();
    assert_eq!(b.base(0), 0);
    assert_eq!(b.base(40), 0);
    assert_eq!(b.base(u32::MAX), 0);
    assert_eq!(b.delay(7, u32::MAX), 0);
}

#[test]
fn base_near_the_largest_value() {
    let b = ExponentialBackoff::new(1, u64::MAX, 0).unwrap();
    assert_eq!(b.base(63), 1u64 << 63);
    assert_eq!(b.base(64), u64::MAX);
    let c = ExponentialBackoff::new(u64::MAX, u64::MAX, 100).unwrap();
    assert_eq!(c.base(0), u64::MAX);
    assert_eq!(c.delay(0, u32::MAX), u64::MAX);
}

#[test]
fn delay_without_jitter_is_the_base() {
    let b = ExponentialBackoff::new(100, 1000, 0).unwrap();
    for n in 0..8 {
        assert_eq!(b.delay(n, 0), b.base(n));
        assert_eq!(b.delay(n, u32::MAX), b.base(n));
    }
}

#[test]
fn delay_adds_the_sampled_share_of_the_jitter() {
    assert_eq!(SAMPLE_RANGE, 1u64 << 32);
    let b = ExponentialBackoff::new(100, 1000, 50).unwrap();
    // half of fifty percent of 100
    assert_eq!(b.delay(0, HALF), 125);
    assert_eq!(b.delay(0, 0), 100);
    // just under fifty percent of 100
    assert_eq!(b.delay(0, u32::MAX), 149);
    assert_eq!(b.delay(1, HALF), 250);
    assert_eq!(b.delay(2, HALF), 500);
}

#[test]
fn delay_is_capped_at_the_maximum() {
    let b = ExponentialBackoff::new(100, 1000, 100).unwrap();
    // base 800, half of a hundred percent of it would be 400: only 200 are left
    assert_eq!(b.delay(3, HALF), 1000);
    assert_eq!(b.delay(3, 0), 800);
    assert_eq!(b.delay(4, u32::MAX), 1000);
    assert_eq!(b.delay(1000, u32::MAX), 1000);
}

#[test]
fn delays_do_not_decrease() {
    let b = ExponentialBackoff::new(3, 10_000, 100).unwrap();
    let samples = [0u32, 1, HALF, u32::MAX];
    for n in 0..20u32 {
        for s1 in samples {
            for s2 in samples {
                assert!(b.delay(n, s1) <= b.delay(n + 1, s2));
                assert!(b.delay(n, s1) <= 10_000);
                assert!(b.delay(n, s1) >= b.base(n));
            }
        }
    }
}

#[test]
fn stream_hands_out_the_schedule() {
    let b = ExponentialBackoff::new(100, 1000, 0).unwrap();
    let mut s = b.stream();
    assert_eq!(s.iterations(), 0);
    let got: Vec<u64> = (0..6).map(|_| s.next_delay(0)).collect();
    assert_eq!(got, vec![100, 200, 400, 800, 1000, 1000]);
    assert_eq!(s.iterations(), 6);
}

#[test]
fn streams_are_independent() {
    let b = ExponentialBackoff::new(100, 1000, 0).unwrap();
    let mut s = b.stream();
    let mut t = b.stream();
    assert_eq!(s.next_delay(0), 100);
    assert_eq!(s.next_delay(0), 200);
    assert_eq!(t.next_delay(0), 100);
    assert_eq!(s.iterations(), 2);
    assert_eq!(t.iterations(), 1);
}
