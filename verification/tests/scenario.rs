use trnbias::MarsagliaRng;
use trnbias::Selection;
use trnbias::search::N_PAIRS;
use trnbias::select_best_pair;

// The floating-point half of the experiment (series synthesis and
// window-pair scoring) cannot live in the verified core; these tests run
// it against the verified generator and selection rule and pin the whole
// pipeline to a recorded baseline.

fn sample(rng: &mut MarsagliaRng) -> f64 {
    let mult: f64 = 1.0 / 4294967295.0;
    mult * rng.next_u32() as f64
}

fn gen_series(rng: &mut MarsagliaRng, ncases: usize, save_trend: f64) -> Vec<f64> {
    let mut trend: f64 = save_trend;
    let mut x: Vec<f64> = vec![0.0; ncases];
    for i in 1..ncases {
        if i % 50 == 0 {
            trend = -trend;
        }
        x[i] = x[i - 1] + trend + sample(rng) + sample(rng) - sample(rng) - sample(rng);
    }
    x
}

/// Mean directional return of one window pair, with the rolling sums
/// maintained incrementally.
fn score_mean_return(ncases: usize, x: &[f64], ishort: usize, ilong: usize) -> f64 {
    let mut total_return: f64 = 0.0;
    let mut short_sum: f64 = 0.0;
    let mut long_sum: f64 = 0.0;
    for i in (ilong - 1)..(ncases - 1) {
        if i == ilong - 1 {
            short_sum = (i + 1 - ishort..=i).map(|j| x[j]).sum();
            long_sum = (i + 1 - ilong..=i).map(|j| x[j]).sum();
        } else {
            short_sum += x[i] - x[i - ishort];
            long_sum += x[i] - x[i - ilong];
        }
        let short_mean: f64 = short_sum / ishort as f64;
        let long_mean: f64 = long_sum / ilong as f64;
        let ret: f64 = if short_mean > long_mean {
            x[i + 1] - x[i]
        } else if short_mean < long_mean {
            x[i] - x[i + 1]
        } else {
            0.0
        };
        total_return += ret;
    }
    total_return / (ncases - ilong) as f64
}

/// Mean directional return of one window pair, with both window sums
/// recomputed from scratch at every index.
fn evaluate_direct(ncases: usize, x: &[f64], short_term: usize, long_term: usize) -> f64 {
    let mut sum: f64 = 0.0;
    for i in (long_term - 1)..(ncases - 1) {
        let short_mean: f64 =
            (i + 1 - short_term..=i).map(|j| x[j]).sum::<f64>() / short_term as f64;
        let long_mean: f64 =
            (i + 1 - long_term..=i).map(|j| x[j]).sum::<f64>() / long_term as f64;
        if short_mean > long_mean {
            sum += x[i + 1] - x[i];
        } else if short_mean < long_mean {
            sum -= x[i + 1] - x[i];
        }
    }
    sum / (ncases - long_term) as f64
}

/// Order-preserving map from finite doubles to unsigned keys; a score
/// that is not a number maps to the smallest key so that it can never
/// take the record, just as it never wins a strictly-greater comparison.
fn key_of(score: f64) -> u64 {
    if score.is_nan() {
        return 0;
    }
    let f: f64 = if score == 0.0 { 0.0 } else { score };
    let bits: u64 = f.to_bits();
    if bits & 0x8000_0000_0000_0000 != 0 {
        !bits
    } else {
        bits | 0x8000_0000_0000_0000
    }
}

#[test]
fn sliding_window_matches_direct_recomputation() {
    let mut rng = MarsagliaRng::from_seed([33, 0, 0, 0]);
    let ncases: usize = 300;
    let x = gen_series(&mut rng, ncases, 0.0);
    let ishort: usize = 5;
    let ilong: usize = 20;
    let mut short_sum: f64 = 0.0;
    let mut long_sum: f64 = 0.0;
    for i in (ilong - 1)..(ncases - 1) {
        if i == ilong - 1 {
            short_sum = (i + 1 - ishort..=i).map(|j| x[j]).sum();
            long_sum = (i + 1 - ilong..=i).map(|j| x[j]).sum();
        } else {
            short_sum += x[i] - x[i - ishort];
            long_sum += x[i] - x[i - ilong];
        }
        let direct_short: f64 = (i + 1 - ishort..=i).map(|j| x[j]).sum::<f64>();
        let direct_long: f64 = (i + 1 - ilong..=i).map(|j| x[j]).sum::<f64>();
        assert!(
            (short_sum / ishort as f64 - direct_short / ishort as f64).abs() <= 1e-9,
            "short mean drifted at index {}",
            i
        );
        assert!(
            (long_sum / ilong as f64 - direct_long / ilong as f64).abs() <= 1e-9,
            "long mean drifted at index {}",
            i
        );
    }
}

#[test]
fn optimizer_scoring_matches_backtester() {
    let mut rng = MarsagliaRng::from_seed([33, 0, 0, 0]);
    let ncases: usize = 300;
    let x = gen_series(&mut rng, ncases, 0.0);
    for (ishort, ilong) in [(5usize, 20usize), (1, 2), (30, 100), (150, 199)] {
        let incremental: f64 = score_mean_return(ncases, &x, ishort, ilong);
        let direct: f64 = evaluate_direct(ncases, &x, ishort, ilong);
        assert!(
            (incremental - direct).abs() <= 1e-12,
            "scores diverged for ({}, {}): {} vs {}",
            ishort,
            ilong,
            incremental,
            direct
        );
    }
}

#[test]
fn end_to_end_regression_baseline() {
    // seed 33, mean-return metric, 300 cases, no trend, one repetition.
    let mut rng = MarsagliaRng::from_seed([33, 0, 0, 0]);
    let ncases: usize = 300;

    let x = gen_series(&mut rng, ncases, 0.0);
    let mut keys: Vec<u64> = Vec::with_capacity(N_PAIRS);
    let mut scores: Vec<f64> = Vec::with_capacity(N_PAIRS);
    for ilong in 2..200 {
        for ishort in 1..ilong {
            let score: f64 = score_mean_return(ncases, &x, ishort, ilong);
            scores.push(score);
            keys.push(key_of(score));
        }
    }
    let s: Selection = select_best_pair(&keys, key_of(f64::MIN)).unwrap();
    assert_eq!((s.short_term, s.long_term, s.index), (168, 170, 14363));
    let is_perf: f64 = scores[s.index];
    assert!((is_perf - 0.18404448557846706).abs() <= 1e-12);

    let oos = gen_series(&mut rng, ncases, 0.0);
    let oos_perf: f64 = evaluate_direct(ncases, &oos, s.short_term, s.long_term);
    assert!((oos_perf - (-0.10501660511121899)).abs() <= 1e-12);
}
