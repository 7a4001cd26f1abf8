use topsy_turvy::timing::mean_and_jitter;

#[test]
fn nothing_measured_gives_nothing() {
    assert_eq!(mean_and_jitter(&Vec::new()), None);
}

#[test]
fn one_duration_is_its_own_mean() {
    assert_eq!(mean_and_jitter(&vec![7]), Some((7, 0)));
}

#[test]
fn mean_is_rounded_down_and_jitter_is_the_largest_distance() {
    assert_eq!(mean_and_jitter(&vec![1, 2, 6]), Some((3, 3)));
    assert_eq!(mean_and_jitter(&vec![10, 11]), Some((10, 1)));
    assert_eq!(mean_and_jitter(&vec![100, 200, 300, 400]), Some((250, 150)));
    assert_eq!(mean_and_jitter(&vec![5, 5, 5]), Some((5, 0)));
}

#[test]
fn the_largest_durations_do_not_overflow() {
    assert_eq!(mean_and_jitter(&vec![u64::MAX, u64::MAX, u64::MAX]), Some((u64::MAX, 0)));
    assert_eq!(mean_and_jitter(&vec![u64::MAX, 0]), Some((u64::MAX / 2, u64::MAX / 2 + 1)));
}

#[test]
fn timing_is_sound_on_samples() {
    let samples: [&[u64]; 5] =
        [&[3], &[1, 1_000_000], &[9, 8, 7, 6], &[0, 0, 1], &[2_000_000_000, 5_000_000_000, 1]];
    for d in samples {
        let (mean, jitter) = mean_and_jitter(&d.to_vec()).unwrap();
        let min = *d.iter().min().unwrap();
        let max = *d.iter().max().unwrap();
        assert!(min <= mean && mean <= max);
        assert!(jitter <= max - min);
    }
}
