//! Weighted reservoir sampling: O(1)-memory proportional-to-weight
//! selection over a candidate stream. `update` consumes one uniform draw
//! per candidate; the deterministic selection rule, given the draw, is
//! specified exactly by `update_with_draw`.
//!
//! Known limitation: merging several reservoirs (spatial or temporal
//! reuse) is not offered. A correct merge must re-weight each input's
//! weight sum by the combined target function evaluated at that input's
//! selected sample; until that derivation is done, combination stays out
//! rather than guessing the formula.

use crate::fx::{fx_add, spec_add, FX_ONE};
use crate::rng::rand_below;
use vstd::prelude::*;

verus! {

/// A reservoir: the selected candidate id `y`, the running weight sum
/// `wsum`, the number of candidates seen `m`, and the resolved unbiased
/// weight `w` set when the reservoir is finalized.
#[derive(Clone, Copy, PartialEq, Eq, Structural, Debug)]
pub struct Reservoir {
    pub y: usize,
    pub wsum: i64,
    pub m: u32,
    pub w: i64,
}

/// The streaming replacement rule: after adding weight `w` the candidate
/// replaces the current selection exactly when the uniform draw (a 16.16
/// fraction of one, `0 <= draw < 65536`) falls below `w / wsum_new`.
pub open spec fn spec_reservoir_replaces(wsum_new: i64, w: i64, draw: u64) -> bool {
    wsum_new > 0 && w > 0 && (draw as int) * (wsum_new as int) < (w as int) * (FX_ONE as int)
}

impl Default for Reservoir {
    /// An empty reservoir: nothing selected, nothing seen.
    fn default() -> (r: Reservoir)
        ensures
            r == (Reservoir { y: 0, wsum: 0, m: 0, w: 0 }),
    {
        Reservoir { y: 0, wsum: 0, m: 0, w: 0 }
    }
}

impl Reservoir {
    /// An empty reservoir: nothing selected, nothing seen.
    pub fn new() -> (r: Reservoir)
        ensures
            r == (Reservoir { y: 0, wsum: 0, m: 0, w: 0 }),
    {
        Reservoir { y: 0, wsum: 0, m: 0, w: 0 }
    }

    /// Feed one candidate with its weight and the uniform draw that decides
    /// replacement: `wsum` grows by `w` (saturating), `m` by exactly one,
    /// and `y` becomes the candidate exactly when the draw falls below
    /// `w / wsum_new`.
    pub fn update_with_draw(&mut self, x: usize, w: i64, draw: u64)
        requires
            old(self).m < u32::MAX,
        ensures
            final (self).wsum == spec_add(old(self).wsum, w),
            final (self).m == old(self).m + 1,
            final (self).y == if spec_reservoir_replaces(spec_add(old(self).wsum, w), w, draw) {
                x
            } else {
                old(self).y
            },
            final (self).w == old(self).w,
    {
        self.wsum = fx_add(self.wsum, w);
        self.m = self.m + 1;
        if self.wsum > 0 && w > 0 {
            proof {
                assert((draw as int) * (self.wsum as int) < 0x1_0000_0000_0000_0000_0000_0000_0000_0000)
                    by (nonlinear_arith)
                    requires
                        draw <= u64::MAX,
                        0 < self.wsum <= i64::MAX,
                ;
            }
            if (draw as u128) * (self.wsum as u128) < (w as u128) * 65536 {
                self.y = x;
            }
        }
    }

    /// Feed one candidate with its weight, drawing the replacement decision
    /// from the thread-local generator: `wsum` grows by `w` (saturating and
    /// so non-decreasing for non-negative weights), `m` by exactly one, and
    /// the selection either keeps its value or becomes the new candidate.
    pub fn update(&mut self, x: usize, w: i64)
        requires
            old(self).m < u32::MAX,
        ensures
            final (self).wsum == spec_add(old(self).wsum, w),
            w >= 0 ==> final (self).wsum >= old(self).wsum,
            final (self).m == old(self).m + 1,
            final (self).y == x || final (self).y == old(self).y,
            final (self).w == old(self).w,
    {
        let draw = rand_below(65536);
        self.update_with_draw(x, w, draw);
    }
}

} // verus!
