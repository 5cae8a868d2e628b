use chronograph::sampling::{is_power_of_two, SampleRate};

#[test]
fn rate_zero_samples_every_span() {
    let rate = SampleRate::from(0);
    assert_eq!(rate, SampleRate::All);
    for id in [0u64, 1, 2, 3, 17, u64::MAX] {
        assert!(rate.sample(id));
    }
}

#[test]
fn rate_one_samples_every_span() {
    let rate = SampleRate::from(1);
    assert_eq!(rate, SampleRate::Pow2(1));
    for id in [0u64, 1, 2, 3, 17, u64::MAX] {
        assert!(rate.sample(id));
    }
}

#[test]
fn rate_takes_the_form_of_its_kind() {
    assert_eq!(SampleRate::from(16), SampleRate::Pow2(16));
    assert_eq!(SampleRate::from(1 << 63), SampleRate::Pow2(1 << 63));
    assert_eq!(SampleRate::from(6), SampleRate::Modulo(6));
    assert_eq!(SampleRate::from(u64::MAX), SampleRate::Modulo(u64::MAX));
}

#[test]
fn power_of_two_rate_samples_its_multiples() {
    let rate = SampleRate::from(4);
    let decisions: Vec<bool> = (0u64..8).map(|id| rate.sample(id)).collect();
    assert_eq!(decisions, vec![true, false, false, false, true, false, false, false]);
}

#[test]
fn other_rate_samples_its_multiples() {
    let rate = SampleRate::from(3);
    let decisions: Vec<bool> = (0u64..7).map(|id| rate.sample(id)).collect();
    assert_eq!(decisions, vec![true, false, false, true, false, false, true]);
}

#[test]
fn sampling_is_deterministic() {
    for configured in [0u64, 1, 2, 3, 4, 5, 8, 10, 1024, 1000] {
        let rate = SampleRate::from(configured);
        let again = SampleRate::from(configured);
        for id in 0u64..64 {
            assert_eq!(rate.sample(id), rate.sample(id));
            assert_eq!(rate.sample(id), again.sample(id));
        }
    }
}

#[test]
fn mask_test_agrees_with_remainder_test() {
    for shift in 0u32..64 {
        let configured: u64 = 1 << shift;
        let rate = SampleRate::from(configured);
        assert_eq!(rate, SampleRate::Pow2(configured));
        for id in [0u64, 1, 2, 3, 4, 7, 8, 1023, 1024, 1 << 40, u64::MAX - 1, u64::MAX, configured] {
            assert_eq!(rate.sample(id), id % configured == 0);
            assert_eq!(id & (configured - 1), id % configured);
        }
    }
}

#[test]
fn decision_is_the_remainder_test_at_every_rate() {
    for configured in 1u64..40 {
        let rate = SampleRate::from(configured);
        for id in 0u64..200 {
            assert_eq!(rate.sample(id), id % configured == 0);
        }
    }
}

#[test]
fn powers_of_two_are_told_apart() {
    assert!(!is_power_of_two(0));
    assert!(is_power_of_two(1));
    assert!(is_power_of_two(2));
    assert!(!is_power_of_two(3));
    assert!(is_power_of_two(4096));
    assert!(!is_power_of_two(4097));
    assert!(is_power_of_two(1 << 63));
    assert!(!is_power_of_two(u64::MAX));
    for value in 0u64..2000 {
        assert_eq!(is_power_of_two(value), value.is_power_of_two());
    }
}
