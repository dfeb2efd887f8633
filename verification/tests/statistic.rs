use variance::statistic::Statistic;

const ALL: [Statistic; 3] =
    [Statistic::Mean, Statistic::BiasedVariance, Statistic::UnbiasedVariance];

#[test]
fn empty_sample_has_no_statistic() {
    for s in ALL {
        assert!(!s.is_defined(0));
    }
}

#[test]
fn single_observation_has_mean_and_biased_variance_only() {
    assert!(Statistic::Mean.is_defined(1));
    assert!(Statistic::BiasedVariance.is_defined(1));
    assert!(!Statistic::UnbiasedVariance.is_defined(1));
}

#[test]
fn two_observations_have_every_statistic() {
    for s in ALL {
        assert!(s.is_defined(2));
    }
}

#[test]
fn larger_samples_have_every_statistic() {
    for s in ALL {
        for n in [3usize, 4, 8, 1000, usize::MAX] {
            assert!(s.is_defined(n));
        }
    }
}

#[test]
fn defined_sizes_are_closed_upward() {
    for s in ALL {
        let mut seen = false;
        for n in 0usize..16 {
            let now = s.is_defined(n);
            assert!(now || !seen);
            seen = now;
        }
        assert!(seen);
    }
}

#[test]
fn statistics_compare_by_variant() {
    assert_eq!(Statistic::Mean, Statistic::Mean);
    assert_ne!(Statistic::BiasedVariance, Statistic::UnbiasedVariance);
    let s = Statistic::UnbiasedVariance;
    let t = s;
    assert_eq!(s, t);
}
