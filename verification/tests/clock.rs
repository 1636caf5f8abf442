use signal_graph::clock::SampleTime;
use std::cmp::Ordering;

fn time(count: u32, rate: u32) -> SampleTime {
    SampleTime { count, rate }
}

#[test]
fn equal_ratios_at_different_rates_are_equal() {
    assert!(time(1, 2) == time(2, 4));
    assert!(time(48000, 48000) == time(44100, 44100));
    assert!(time(0, 48000) == time(0, 1));
    assert!(time(3, 4) != time(2, 4));
}

#[test]
fn smaller_ratio_is_less() {
    assert!(time(1, 2) < time(3, 4));
    assert!(!(time(3, 4) < time(1, 2)));
    assert!(!(time(1, 2) < time(2, 4)));
    assert!(time(1, 2) <= time(2, 4));
    assert!(time(3, 4) > time(1, 2));
    assert!(time(3, 4) >= time(6, 8));
}

#[test]
fn partial_cmp_gives_each_ordering() {
    assert_eq!(time(1, 3).partial_cmp(&time(1, 2)), Some(Ordering::Less));
    assert_eq!(time(2, 6).partial_cmp(&time(1, 3)), Some(Ordering::Equal));
    assert_eq!(time(1, 2).partial_cmp(&time(1, 3)), Some(Ordering::Greater));
}

#[test]
fn cross_product_is_exact() {
    assert_eq!(time(7, 48000).cross_product(&time(5, 44100)), 7 * 44100);
    assert_eq!(
        time(u32::MAX, 1).cross_product(&time(1, u32::MAX)),
        u32::MAX as u64 * u32::MAX as u64
    );
}

#[test]
fn products_beyond_32_bits_compare_exactly() {
    // One day at 48 kHz against one sample less at the same rate: the
    // products are near 2^44.
    let day = time(86_400 * 48_000, 48_000);
    let nearly = time(86_400 * 48_000 - 1, 48_000);
    assert!(nearly < day);
    assert!(day != nearly);
    // The largest values there are.
    let a = time(u32::MAX, u32::MAX);
    let b = time(u32::MAX - 1, u32::MAX);
    assert!(b < a);
    assert!(a == time(1, 1));
    // In 32 bits these two products would wrap to the same value.
    assert!(time(0x1_0000, 1) != time(0, 0x1_0000));
    assert!(time(0, 0x1_0000) < time(0x1_0000, 1));
}

#[test]
fn a_time_equals_itself_and_is_not_less() {
    let t = time(12345, 48000);
    assert!(t == t);
    assert!(!(t < t));
    assert_eq!(t.partial_cmp(&t), Some(Ordering::Equal));
}
