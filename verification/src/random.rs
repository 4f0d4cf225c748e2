//! Seeded pseudo-random source and discrete weighted-choice sampling.
//!
//! The generator is a 64-bit linear congruential generator with an
//! xorshift output mix. The same seed and the same call sequence always
//! reproduce the same draws, which makes whole generation runs repeatable.
use vstd::prelude::*;

verus! {

/// Multiplier of the linear congruential step.
pub const LCG_MUL: u64 = 0x5851_f42d_4c95_7f2d;

/// Increment of the linear congruential step.
pub const LCG_INC: u64 = 0x1405_7b7e_f767_814f;

/// Probabilities are stated in basis points: this value stands for 1.0.
pub const PROB_UNIT: u32 = 10000;

/// The generator state after one linear congruential step.
pub open spec fn spec_next_state(s: u64) -> u64 {
    vstd::wrapping::u64_specs::wrapping_add(vstd::wrapping::u64_specs::wrapping_mul(s, LCG_MUL), LCG_INC)
}

/// The value a draw started in state `s` hands out.
pub open spec fn spec_output(s: u64) -> u64 {
    spec_next_state(s) ^ (spec_next_state(s) >> 33)
}

/// Sum of the first `n` weights.
pub open spec fn spec_weight_prefix(w: Seq<u64>, n: int) -> int
    decreases n,
{
    if n <= 0 {
        0
    } else {
        spec_weight_prefix(w, n - 1) + w[n - 1]
    }
}

/// Prefix sums of non-negative weights grow monotonically.
pub proof fn lemma_weight_prefix_monotonic(w: Seq<u64>, i: int, j: int)
    requires
        0 <= i <= j <= w.len(),
    ensures
        spec_weight_prefix(w, i) <= spec_weight_prefix(w, j),
    decreases j - i,
{
    if i < j {
        lemma_weight_prefix_monotonic(w, i, j - 1);
    }
}

/// The index a weighted draw started in state `s` selects: the unique `i`
/// whose prefix-sum interval contains the draw's remainder. Meaningful
/// whenever the weights' total is positive.
pub open spec fn spec_sample_index(s: u64, w: Seq<u64>) -> int {
    choose|i: int|
        #![trigger spec_weight_prefix(w, i)]
        0 <= i < w.len() && spec_weight_prefix(w, i) <= (spec_output(s) as int) % spec_weight_prefix(
            w,
            w.len() as int,
        ) < spec_weight_prefix(w, i + 1)
}

/// The prefix-sum intervals are disjoint: at most one index contains a
/// given draw.
pub proof fn lemma_sample_interval_unique(w: Seq<u64>, t: int, i: int, j: int)
    requires
        0 <= i < w.len(),
        0 <= j < w.len(),
        spec_weight_prefix(w, i) <= t < spec_weight_prefix(w, i + 1),
        spec_weight_prefix(w, j) <= t < spec_weight_prefix(w, j + 1),
    ensures
        i == j,
{
    if i < j {
        lemma_weight_prefix_monotonic(w, i + 1, j);
    } else if j < i {
        lemma_weight_prefix_monotonic(w, j + 1, i);
    }
}

/// An index whose interval contains the draw's remainder is the sampled
/// index.
pub proof fn lemma_sample_index_is(s: u64, w: Seq<u64>, j: int)
    requires
        0 <= j < w.len(),
        spec_weight_prefix(w, j) <= (spec_output(s) as int) % spec_weight_prefix(
            w,
            w.len() as int,
        ) < spec_weight_prefix(w, j + 1),
    ensures
        spec_sample_index(s, w) == j,
{
    let t = (spec_output(s) as int) % spec_weight_prefix(w, w.len() as int);
    let i = spec_sample_index(s, w);
    assert(0 <= i < w.len() && spec_weight_prefix(w, i) <= t < spec_weight_prefix(w, i + 1)) by {
        assert(0 <= j < w.len() && spec_weight_prefix(w, j) <= t < spec_weight_prefix(w, j + 1));
    }
    lemma_sample_interval_unique(w, t, i, j);
}

/// When every weight stays below a cap, the total stays below `n` times it.
pub proof fn lemma_weight_prefix_bound(w: Seq<u64>, n: int, cap: int)
    requires
        0 <= n <= w.len(),
        forall|i: int| 0 <= i < n ==> w[i] <= cap,
    ensures
        spec_weight_prefix(w, n) <= n * cap,
    decreases n,
{
    if n > 0 {
        lemma_weight_prefix_bound(w, n - 1, cap);
        assert(spec_weight_prefix(w, n) == spec_weight_prefix(w, n - 1) + w[n - 1]);
        assert(w[n - 1] <= cap);
        assert((n - 1) * cap + cap == n * cap) by (nonlinear_arith);
    } else {
        assert(n * cap == 0) by (nonlinear_arith)
            requires
                n == 0,
        ;
    }
}

/// A discrete weighted distribution: value `values[i]` is drawn with
/// probability proportional to `weights[i]`.
pub struct RandomDistConfig<T> {
    pub values: Vec<T>,
    pub weights: Vec<u64>,
}

impl<T> RandomDistConfig<T> {
    /// A usable distribution: the two lists line up, are small enough that
    /// the weight total cannot overflow, and some weight is positive.
    pub open spec fn wf(self) -> bool {
        &&& self.values@.len() == self.weights@.len()
        &&& 1 <= self.weights@.len() <= 0xffff
        &&& (forall|i: int| 0 <= i < self.weights@.len() ==> #[trigger] self.weights@[i]
            <= 0xffff_ffffu64)
        &&& spec_weight_prefix(self.weights@, self.weights@.len() as int) > 0
    }

    pub fn new(values: Vec<T>, weights: Vec<u64>) -> (r: RandomDistConfig<T>)
        ensures
            r.values == values,
            r.weights == weights,
    {
        RandomDistConfig { values, weights }
    }

    /// Whether [`Self::wf`] holds, checked at run time.
    pub fn check(&self) -> (b: bool)
        ensures
            b == self.wf(),
    {
        if self.values.len() != self.weights.len() {
            return false;
        }
        if self.weights.len() < 1 || self.weights.len() > 0xffff {
            return false;
        }
        let mut total: u64 = 0;
        let mut i: usize = 0;
        while i < self.weights.len()
            invariant
                0 <= i <= self.weights@.len(),
                self.weights@.len() <= 0xffff,
                total == spec_weight_prefix(self.weights@, i as int),
                forall|j: int| 0 <= j < i ==> #[trigger] self.weights@[j] <= 0xffff_ffffu64,
            decreases self.weights@.len() - i,
        {
            if self.weights[i] > 0xffff_ffff {
                return false;
            }
            proof {
                lemma_weight_prefix_bound(self.weights@, i as int + 1, 0xffff_ffff);
            }
            total = total + self.weights[i];
            i += 1;
        }
        total > 0
    }
}

/// Seeded random number source. Each generation run owns its own instance;
/// every draw advances `state` by the same pure function, so a fixed seed
/// reproduces a fixed draw sequence.
pub struct Random {
    pub state: u64,
}

impl Random {
    pub fn new(seed: u64) -> (r: Random)
        ensures
            r.state == seed,
    {
        Random { state: seed }
    }

    /// One raw 64-bit draw.
    pub fn next_u64(&mut self) -> (r: u64)
        ensures
            final(self).state == spec_next_state(old(self).state),
            r == spec_output(old(self).state),
    {
        self.state = self.state.wrapping_mul(LCG_MUL).wrapping_add(LCG_INC);
        self.state ^ (self.state >> 33)
    }

    /// A uniform draw below `n`.
    pub fn next_below(&mut self, n: u64) -> (r: u64)
        requires
            n > 0,
        ensures
            final(self).state == spec_next_state(old(self).state),
            r == spec_output(old(self).state) % n,
            r < n,
    {
        self.next_u64() % n
    }

    /// A biased coin: true with probability `p` of [`PROB_UNIT`]. A `p` of
    /// `PROB_UNIT` or more always holds, a `p` of zero never does.
    pub fn with_probability(&mut self, p: u32) -> (r: bool)
        ensures
            final(self).state == spec_next_state(old(self).state),
            r == (spec_output(old(self).state) % (PROB_UNIT as u64) < p as u64),
            p >= PROB_UNIT ==> r,
            p == 0 ==> !r,
    {
        let draw = self.next_below(PROB_UNIT as u64);
        draw < p as u64
    }

    /// Pick an index with probability proportional to its weight. Weights
    /// need not sum to one; a distribution whose weights are all zero (or
    /// empty) is a configuration error, not a silent fallback.
    pub fn sample_index(&mut self, weights: &Vec<u64>) -> (r: Result<
        usize,
        crate::ConfigError,
    >)
        requires
            spec_weight_prefix(weights@, weights@.len() as int) <= u64::MAX,
        ensures
            r is Err <==> spec_weight_prefix(weights@, weights@.len() as int) == 0,
            r is Err ==> r == Result::<usize, crate::ConfigError>::Err(
                crate::ConfigError::ZeroWeightSum,
            ) && *final(self) == *old(self),
            r matches Ok(i) ==> i < weights@.len() && weights@[i as int] > 0
                && final(self).state == spec_next_state(old(self).state)
                && i == spec_sample_index(old(self).state, weights@),
    {
        let ghost w = weights@;
        let mut total: u64 = 0;
        let mut i: usize = 0;
        while i < weights.len()
            invariant
                0 <= i <= weights@.len(),
                w == weights@,
                total == spec_weight_prefix(w, i as int),
                spec_weight_prefix(w, w.len() as int) <= u64::MAX,
            decreases weights@.len() - i,
        {
            proof {
                lemma_weight_prefix_monotonic(w, i as int + 1, w.len() as int);
            }
            total = total + weights[i];
            i += 1;
        }
        if total == 0 {
            return Err(crate::ConfigError::ZeroWeightSum);
        }
        let ghost s0 = self.state;
        let t = self.next_below(total);
        let j = pick_index(t, weights);
        proof {
            lemma_sample_index_is(s0, weights@, j as int);
        }
        Ok(j)
    }

    /// Draw one value from the distribution: the value at the sampled
    /// index, advancing the state by exactly one draw.
    pub fn sample_value<T: Copy>(&mut self, dist: &RandomDistConfig<T>) -> (v: T)
        requires
            dist.wf(),
        ensures
            final(self).state == spec_next_state(old(self).state),
            v == dist.values@[spec_sample_index(old(self).state, dist.weights@)],
            0 <= spec_sample_index(old(self).state, dist.weights@) < dist.values@.len(),
            dist.weights@[spec_sample_index(old(self).state, dist.weights@)] > 0,
            exists|i: int|
                0 <= i < dist.values@.len() && v == dist.values@[i] && dist.weights@[i] > 0,
    {
        proof {
            lemma_weight_prefix_bound(dist.weights@, dist.weights@.len() as int, 0xffff_ffff);
        }
        match self.sample_index(&dist.weights) {
            Ok(i) => dist.values[i],
            Err(_) => {
                proof {
                    assert(false);
                }
                dist.values[0]
            },
        }
    }
}

/// The index whose prefix-sum interval contains `t`: the unique `i` with
/// `prefix(i) <= t < prefix(i + 1)`.
fn pick_index(t: u64, weights: &Vec<u64>) -> (i: usize)
    requires
        spec_weight_prefix(weights@, weights@.len() as int) <= u64::MAX,
        t < spec_weight_prefix(weights@, weights@.len() as int),
    ensures
        i < weights@.len(),
        weights@[i as int] > 0,
        spec_weight_prefix(weights@, i as int) <= t < spec_weight_prefix(weights@, i as int + 1),
{
    let ghost w = weights@;
    let mut acc: u64 = 0;
    let mut j: usize = 0;
    while j < weights.len()
        invariant
            0 <= j <= weights@.len(),
            w == weights@,
            acc == spec_weight_prefix(w, j as int),
            acc <= t < spec_weight_prefix(w, w.len() as int),
            spec_weight_prefix(w, w.len() as int) <= u64::MAX,
        decreases weights@.len() - j,
    {
        proof {
            lemma_weight_prefix_monotonic(w, j as int + 1, w.len() as int);
        }
        if t < acc + weights[j] {
            return j;
        }
        acc = acc + weights[j];
        j += 1;
    }
    proof {
        assert(false);
    }
    0
}

} // verus!
