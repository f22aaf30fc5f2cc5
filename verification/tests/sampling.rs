//! Weighted reservoir sampling: the exact streaming rule and its
//! statistical behavior over many independent reservoirs.

use ray_tracing::fx::FX_ONE;
use ray_tracing::reservoir::Reservoir;

#[test]
fn update_counts_and_weight_sum() {
    let mut r = Reservoir::new();
    r.update(3, FX_ONE);
    assert_eq!(r.m, 1);
    assert_eq!(r.wsum, FX_ONE);
    r.update(7, 2 * FX_ONE);
    assert_eq!(r.m, 2);
    assert_eq!(r.wsum, 3 * FX_ONE);
    // The selection is always one of the candidates seen.
    assert!(r.y == 3 || r.y == 7);
    assert_eq!(r.w, 0);
}

#[test]
fn first_positive_weight_always_selected() {
    // For the first candidate, w / wsum = 1 and any draw below one selects
    // it.
    for draw in [0u64, 1, 32768, 65535] {
        let mut r = Reservoir::new();
        r.update_with_draw(9, FX_ONE, draw);
        assert_eq!(r.y, 9, "draw {draw}");
    }
}

#[test]
fn zero_weight_candidate_never_selected() {
    let mut r = Reservoir::new();
    r.update_with_draw(1, FX_ONE, 0);
    r.update_with_draw(2, 0, 0);
    assert_eq!(r.y, 1);
    assert_eq!(r.m, 2);
    assert_eq!(r.wsum, FX_ONE);
}

#[test]
fn replacement_threshold_is_exact() {
    // Second candidate with equal weight: replacement probability is 1/2,
    // so draws below 32768 replace and draws at or above it do not.
    let mut low = Reservoir::new();
    low.update_with_draw(1, FX_ONE, 0);
    low.update_with_draw(2, FX_ONE, 32767);
    assert_eq!(low.y, 2);

    let mut high = Reservoir::new();
    high.update_with_draw(1, FX_ONE, 0);
    high.update_with_draw(2, FX_ONE, 32768);
    assert_eq!(high.y, 1);
}

#[test]
fn equal_weights_select_nearly_uniformly() {
    // Feed five equal-weight candidates into many independent reservoirs;
    // the selection frequencies approach the uniform 1/5 each.
    const RESERVOIRS: usize = 2000;
    const CANDIDATES: usize = 5;
    let mut counts = [0usize; CANDIDATES];
    for _ in 0..RESERVOIRS {
        let mut r = Reservoir::new();
        for c in 0..CANDIDATES {
            r.update(c, FX_ONE);
        }
        assert!(r.y < CANDIDATES);
        assert_eq!(r.m as usize, CANDIDATES);
        counts[r.y] += 1;
    }
    let expected = RESERVOIRS / CANDIDATES;
    for (c, &n) in counts.iter().enumerate() {
        assert!(
            n > expected - 150 && n < expected + 150,
            "candidate {c} selected {n} times, expected about {expected}"
        );
    }
}
