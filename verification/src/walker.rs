//! The stateful random-walk agent: waypoint following, kernel mutation,
//! momentum-biased directional steps, carving, stuck detection and skip
//! validation.
use vstd::prelude::*;

use crate::config::GenerationConfig;
use crate::kernel::spec_kernel_contains;
use crate::kernel::Kernel;
use crate::kernel::MAX_KERNEL_RADIUS;
use crate::map::spec_writable;
use crate::map::BlockType;
use crate::map::Grid;
use crate::map::MAX_MAP_SIDE;
use crate::position::lemma_dist_sqr_symmetric;
use crate::position::shift_key;
use crate::position::spec_chebyshev;
use crate::position::spec_dist_sqr;
use crate::position::spec_shift_dx;
use crate::position::spec_shift_dy;
use crate::position::spec_shift_key;
use crate::position::Position;
use crate::position::ShiftDirection;
use crate::random::lemma_weight_prefix_bound;
use crate::random::spec_next_state;
use crate::random::spec_output;
use crate::random::spec_sample_index;
use crate::random::Random;
use crate::random::PROB_UNIT;
use crate::GenerationError;

verus! {

/// One accepted skip: where the walker stood when it jumped, and how far
/// ahead it jumped (Chebyshev distance in cells).
#[derive(Clone, Copy, Debug, PartialEq, Eq, Structural)]
pub struct Skip {
    pub start: Position,
    pub length: usize,
}

/// Total length of the first `n` accepted skips.
pub open spec fn spec_skip_sum(s: Seq<Skip>, n: int) -> int
    decreases n,
{
    if n <= 0 {
        0
    } else {
        spec_skip_sum(s, n - 1) + s[n - 1].length
    }
}

/// Records the skips one run has accepted and enforces the topological
/// safety rules: each skip's length within configured bounds, accepted
/// skips pairwise far apart, and the total skipped length within a budget.
pub struct SkipTracker {
    pub accepted: Vec<Skip>,
    /// Sum of the lengths of all accepted skips.
    pub total_skipped: usize,
    /// Smallest acceptable skip length.
    pub min_length: usize,
    /// Largest acceptable skip length.
    pub max_length: usize,
    /// Smallest acceptable squared distance between two accepted skips.
    pub min_spacing_sqr: usize,
    /// Largest acceptable total skipped length for the whole run.
    pub budget: usize,
}

impl SkipTracker {
    /// The safety rules, as an invariant over everything accepted so far.
    pub open spec fn wf(self) -> bool {
        &&& self.total_skipped == spec_skip_sum(self.accepted@, self.accepted@.len() as int)
        &&& self.total_skipped <= self.budget
        &&& (forall|i: int|
            0 <= i < self.accepted@.len() ==> self.min_length
                <= (#[trigger] self.accepted@[i]).length <= self.max_length)
        &&& (forall|i: int, j: int|
            0 <= i < j < self.accepted@.len() ==> #[trigger] spec_dist_sqr(
                self.accepted@[i].start,
                self.accepted@[j].start,
            ) >= self.min_spacing_sqr)
        &&& (forall|i: int|
            0 <= i < self.accepted@.len() ==> (#[trigger] self.accepted@[i]).start.x
                <= MAX_MAP_SIDE && self.accepted@[i].start.y <= MAX_MAP_SIDE)
    }

    pub fn new(min_length: usize, max_length: usize, min_spacing_sqr: usize, budget: usize) -> (t:
        SkipTracker)
        ensures
            t.wf(),
            t.accepted@.len() == 0,
            t.total_skipped == 0,
            t.min_length == min_length,
            t.max_length == max_length,
            t.min_spacing_sqr == min_spacing_sqr,
            t.budget == budget,
    {
        SkipTracker {
            accepted: Vec::new(),
            total_skipped: 0,
            min_length,
            max_length,
            min_spacing_sqr,
            budget,
        }
    }

    /// Whether a candidate passes all three safety rules against the state
    /// accepted so far.
    pub open spec fn spec_acceptable(self, start: Position, length: int) -> bool {
        &&& self.min_length <= length <= self.max_length
        &&& self.total_skipped + length <= self.budget
        &&& (forall|i: int|
            0 <= i < self.accepted@.len() ==> #[trigger] spec_dist_sqr(
                self.accepted@[i].start,
                start,
            ) >= self.min_spacing_sqr)
    }

    /// Validate one skip candidate: accept and record it exactly when it
    /// satisfies every safety rule, reject it (leaving the tracker
    /// unchanged) otherwise. A rejection is a normal outcome, not an error.
    pub fn try_accept(&mut self, start: Position, length: usize) -> (acc: bool)
        requires
            old(self).wf(),
            start.x <= MAX_MAP_SIDE,
            start.y <= MAX_MAP_SIDE,
        ensures
            final(self).wf(),
            acc == old(self).spec_acceptable(start, length as int),
            acc ==> final(self).accepted@ == old(self).accepted@.push(Skip { start, length })
                && final(self).total_skipped == old(self).total_skipped + length,
            !acc ==> *final(self) == *old(self),
            final(self).min_length == old(self).min_length,
            final(self).max_length == old(self).max_length,
            final(self).min_spacing_sqr == old(self).min_spacing_sqr,
            final(self).budget == old(self).budget,
    {
        if length < self.min_length || length > self.max_length {
            return false;
        }
        if length > self.budget || self.total_skipped > self.budget - length {
            return false;
        }
        let mut i: usize = 0;
        while i < self.accepted.len()
            invariant
                0 <= i <= self.accepted@.len(),
                self.wf(),
                start.x <= MAX_MAP_SIDE,
                start.y <= MAX_MAP_SIDE,
                forall|j: int|
                    0 <= j < i ==> #[trigger] spec_dist_sqr(self.accepted@[j].start, start)
                        >= self.min_spacing_sqr,
            decreases self.accepted@.len() - i,
        {
            let d = self.accepted[i].start.dist_sqr(&start);
            if d < self.min_spacing_sqr as u64 {
                return false;
            }
            i += 1;
        }
        let ghost a0 = self.accepted@;
        self.accepted.push(Skip { start, length });
        self.total_skipped = self.total_skipped + length;
        proof {
            assert(self.accepted@ == a0.push(Skip { start, length }));
            assert(spec_skip_sum(self.accepted@, self.accepted@.len() as int)
                == spec_skip_sum(self.accepted@, a0.len() as int) + length);
            lemma_skip_sum_prefix_eq(a0, self.accepted@, a0.len() as int);
        }
        true
    }
}

/// Two skip sequences that agree on their first `n` entries have the same
/// partial sums there.
pub proof fn lemma_skip_sum_prefix_eq(a: Seq<Skip>, b: Seq<Skip>, n: int)
    requires
        0 <= n <= a.len(),
        n <= b.len(),
        forall|i: int| 0 <= i < n ==> a[i] == b[i],
    ensures
        spec_skip_sum(a, n) == spec_skip_sum(b, n),
    decreases n,
{
    if n > 0 {
        lemma_skip_sum_prefix_eq(a, b, n - 1);
    }
}

/// Skip safety, as one statement: under the tracker's invariant every
/// accepted skip has a length within the configured bounds, any two
/// accepted skips lie at least the configured squared distance apart, and
/// the total skipped length stays within the configured budget.
pub proof fn lemma_skip_safety(t: SkipTracker)
    requires
        t.wf(),
    ensures
        forall|i: int|
            0 <= i < t.accepted@.len() ==> t.min_length <= (#[trigger] t.accepted@[i]).length
                <= t.max_length,
        forall|i: int, j: int|
            0 <= i < t.accepted@.len() && 0 <= j < t.accepted@.len() && i != j
                ==> #[trigger] spec_dist_sqr(t.accepted@[i].start, t.accepted@[j].start)
                >= t.min_spacing_sqr,
        spec_skip_sum(t.accepted@, t.accepted@.len() as int) <= t.budget,
{
    assert forall|i: int, j: int|
        0 <= i < t.accepted@.len() && 0 <= j < t.accepted@.len() && i != j implies #[trigger]
    spec_dist_sqr(t.accepted@[i].start, t.accepted@[j].start) >= t.min_spacing_sqr by {
        if i < j {
        } else {
            lemma_dist_sqr_symmetric(t.accepted@[i].start, t.accepted@[j].start);
        }
    }
}

/// The random-walk agent. `Walking` is the default state; `finished`
/// becomes true, permanently, once the waypoint cursor passes the last
/// index.
pub struct CuteWalker {
    /// Live position.
    pub pos: Position,
    /// Steps taken since run start; drives fading and pulsing.
    pub steps: usize,
    pub inner_kernel: Kernel,
    pub outer_kernel: Kernel,
    /// Ordered waypoint list; insertion order is traversal order.
    pub waypoints: Vec<Position>,
    /// Cursor into `waypoints`.
    pub goal_index: usize,
    pub finished: bool,
    /// Direction of the previous step, for momentum.
    pub last_direction: Option<ShiftDirection>,
    /// Whether the last two shifts were collinear.
    pub straight: bool,
    /// Best squared goal distance seen since progress was last booked.
    pub lock_best_dist_sqr: u64,
    /// Steps since the walker last advanced meaningfully toward its goal.
    pub lock_delay: usize,
    pub skips: SkipTracker,
}

impl CuteWalker {
    /// Well-formedness against a grid of the given dimensions.
    pub open spec fn wf(self, width: int, height: int) -> bool {
        &&& self.pos.x < width
        &&& self.pos.y < height
        &&& width <= MAX_MAP_SIDE
        &&& height <= MAX_MAP_SIDE
        &&& self.goal_index <= self.waypoints@.len()
        &&& (self.finished <==> self.goal_index == self.waypoints@.len())
        &&& (forall|i: int|
            0 <= i < self.waypoints@.len() ==> (#[trigger] self.waypoints@[i]).x < width
                && self.waypoints@[i].y < height)
        &&& self.inner_kernel.wf()
        &&& self.outer_kernel.wf()
        &&& self.skips.wf()
    }

    pub fn new(
        pos: Position,
        inner_kernel: Kernel,
        outer_kernel: Kernel,
        waypoints: Vec<Position>,
        config: &GenerationConfig,
    ) -> (w: CuteWalker)
        ensures
            w.pos == pos,
            w.steps == 0,
            w.inner_kernel == inner_kernel,
            w.outer_kernel == outer_kernel,
            w.waypoints == waypoints,
            w.goal_index == 0,
            w.finished == (waypoints@.len() == 0),
            w.last_direction is None,
            !w.straight,
            w.lock_best_dist_sqr == u64::MAX,
            w.lock_delay == 0,
            w.skips.wf(),
            w.skips.accepted@.len() == 0,
            w.skips.min_length == config.skip_length_bounds.0,
            w.skips.max_length == config.skip_length_bounds.1,
            w.skips.min_spacing_sqr == config.skip_min_spacing_sqr,
            w.skips.budget == config.max_level_skip,
    {
        let finished = waypoints.len() == 0;
        CuteWalker {
            pos,
            steps: 0,
            inner_kernel,
            outer_kernel,
            waypoints,
            goal_index: 0,
            finished,
            last_direction: None,
            straight: false,
            lock_best_dist_sqr: u64::MAX,
            lock_delay: 0,
            skips: SkipTracker::new(
                config.skip_length_bounds.0,
                config.skip_length_bounds.1,
                config.skip_min_spacing_sqr,
                config.max_level_skip,
            ),
        }
    }

    /// Whether the current waypoint counts as reached: within the given
    /// distance of the walker. `None` once the walker is finished.
    pub fn is_goal_reached(&self, reached_dist: usize) -> (r: Option<bool>)
        requires
            self.pos.x <= MAX_MAP_SIDE,
            self.pos.y <= MAX_MAP_SIDE,
            self.goal_index < self.waypoints@.len() || self.finished,
            forall|i: int|
                0 <= i < self.waypoints@.len() ==> (#[trigger] self.waypoints@[i]).x
                    <= MAX_MAP_SIDE && self.waypoints@[i].y <= MAX_MAP_SIDE,
            reached_dist <= 2 * MAX_MAP_SIDE,
        ensures
            r is None <==> self.finished,
            !self.finished ==> r == Some(
                spec_dist_sqr(self.pos, self.waypoints@[self.goal_index as int]) <= reached_dist
                    * reached_dist,
            ),
    {
        if self.finished {
            return None;
        }
        let goal = self.waypoints[self.goal_index];
        let d = self.pos.dist_sqr(&goal);
        let rd = reached_dist as u64;
        proof {
            assert(rd * rd <= 0x10000u64 * 0x10000u64) by (nonlinear_arith)
                requires
                    rd <= 0x10000u64,
            ;
        }
        Some(d <= rd * rd)
    }

    /// Advance the waypoint cursor; the walker becomes (permanently)
    /// finished when no waypoint remains. Progress bookkeeping restarts for
    /// the new goal.
    pub fn next_waypoint(&mut self)
        requires
            old(self).goal_index < old(self).waypoints@.len(),
        ensures
            final(self).goal_index == old(self).goal_index + 1,
            final(self).finished == (old(self).goal_index + 1 == old(self).waypoints@.len()),
            final(self).lock_best_dist_sqr == u64::MAX,
            final(self).lock_delay == 0,
            final(self).pos == old(self).pos,
            final(self).steps == old(self).steps,
            final(self).inner_kernel == old(self).inner_kernel,
            final(self).outer_kernel == old(self).outer_kernel,
            final(self).waypoints == old(self).waypoints,
            final(self).last_direction == old(self).last_direction,
            final(self).straight == old(self).straight,
            final(self).skips == old(self).skips,
    {
        let n = self.waypoints.len();
        self.goal_index = self.goal_index + 1;
        self.finished = self.goal_index == n;
        self.lock_best_dist_sqr = u64::MAX;
        self.lock_delay = 0;
    }

    /// Randomly mutate the kernels: with the configured probabilities,
    /// resample inner size and circularity from the profile's discrete
    /// distributions, and outer margin (relative to the inner size) and
    /// outer circularity likewise. Unmutated kernels persist unchanged, and
    /// the whole outcome, sampler state included, is the pure function
    /// [`spec_mutated_kernels`] of the entering state.
    #[verifier::rlimit(100)]
    #[verifier::spinoff_prover]
    pub fn mutate_kernel(&mut self, config: &GenerationConfig, rnd: &mut Random)
        requires
            config.wf(),
            old(self).inner_kernel.wf(),
            old(self).outer_kernel.wf(),
        ensures
            final(self).inner_kernel.wf(),
            final(self).outer_kernel.wf(),
            (final(self).inner_kernel, final(self).outer_kernel, final(rnd).state)
                == spec_mutated_kernels(
                *config,
                old(self).inner_kernel,
                old(self).outer_kernel,
                old(rnd).state,
            ),
            final(self).pos == old(self).pos,
            final(self).steps == old(self).steps,
            final(self).waypoints == old(self).waypoints,
            final(self).goal_index == old(self).goal_index,
            final(self).finished == old(self).finished,
            final(self).last_direction == old(self).last_direction,
            final(self).straight == old(self).straight,
            final(self).lock_best_dist_sqr == old(self).lock_best_dist_sqr,
            final(self).lock_delay == old(self).lock_delay,
            final(self).skips == old(self).skips,
    {
        let ghost inner0 = self.inner_kernel;
        let ghost outer0 = self.outer_kernel;
        let ghost s0 = rnd.state;
        let mut inner = self.inner_kernel;
        let mut outer = self.outer_kernel;
        if rnd.with_probability(config.inner_size_mut_prob) {
            inner.radius = rnd.sample_value(&config.inner_size_probs);
        }
        proof {
            let (i1, gs1) = spec_mutation_draw(
                config.inner_size_mut_prob,
                config.inner_size_probs.weights@,
                s0,
            );
            assert(rnd.state == gs1 && inner.radius == (
            if i1 >= 0 {
                config.inner_size_probs.values@[i1]
            } else {
                inner0.radius
            }));
        }
        let ghost s1 = rnd.state;
        if rnd.with_probability(config.inner_rad_mut_prob) {
            inner.circularity = rnd.sample_value(&config.circ_probs);
        }
        proof {
            let (i2, gs2) = spec_mutation_draw(config.inner_rad_mut_prob, config.circ_probs.weights@, s1);
            assert(rnd.state == gs2 && inner.circularity == (
            if i2 >= 0 {
                config.circ_probs.values@[i2]
            } else {
                inner0.circularity
            }));
        }
        let ghost s2 = rnd.state;
        if rnd.with_probability(config.outer_size_mut_prob) {
            let margin = rnd.sample_value(&config.outer_margin_probs);
            outer.radius = if inner.radius + margin <= MAX_KERNEL_RADIUS {
                inner.radius + margin
            } else {
                MAX_KERNEL_RADIUS
            };
        }
        proof {
            let (i3, gs3) = spec_mutation_draw(
                config.outer_size_mut_prob,
                config.outer_margin_probs.weights@,
                s2,
            );
            assert(rnd.state == gs3 && outer.radius == (
            if i3 >= 0 {
                if inner.radius + config.outer_margin_probs.values@[i3] <= MAX_KERNEL_RADIUS {
                    (inner.radius + config.outer_margin_probs.values@[i3]) as usize
                } else {
                    MAX_KERNEL_RADIUS
                }
            } else {
                outer0.radius
            }));
        }
        let ghost s3 = rnd.state;
        if rnd.with_probability(config.outer_rad_mut_prob) {
            outer.circularity = rnd.sample_value(&config.circ_probs);
        }
        proof {
            let (i4, gs4) = spec_mutation_draw(config.outer_rad_mut_prob, config.circ_probs.weights@, s3);
            assert(rnd.state == gs4 && outer.circularity == (
            if i4 >= 0 {
                config.circ_probs.values@[i4]
            } else {
                outer0.circularity
            }));
        }
        self.inner_kernel = inner;
        self.outer_kernel = outer;
    }
}

/// One conditional draw of the kernel-mutation pass: a biased coin with
/// probability `p`, then, on a hit, one weighted draw from the table's
/// weights. Yields the sampled index (the entering value's stand-in `-1`
/// on a miss) and the sampler state after the pass.
pub open spec fn spec_mutation_draw(p: u32, w: Seq<u64>, s: u64) -> (int, u64) {
    if spec_output(s) % (PROB_UNIT as u64) < p as u64 {
        (spec_sample_index(spec_next_state(s), w), spec_next_state(spec_next_state(s)))
    } else {
        (-1, spec_next_state(s))
    }
}

/// The kernels and sampler state one mutation pass leaves: four
/// conditional draws in order — inner size, inner circularity, outer
/// margin (added to the inner size, capped), outer circularity.
pub open spec fn spec_mutated_kernels(
    c: GenerationConfig,
    inner0: Kernel,
    outer0: Kernel,
    s0: u64,
) -> (Kernel, Kernel, u64) {
    let (i1, s1) = spec_mutation_draw(c.inner_size_mut_prob, c.inner_size_probs.weights@, s0);
    let r_in = if i1 >= 0 {
        c.inner_size_probs.values@[i1]
    } else {
        inner0.radius
    };
    let (i2, s2) = spec_mutation_draw(c.inner_rad_mut_prob, c.circ_probs.weights@, s1);
    let c_in = if i2 >= 0 {
        c.circ_probs.values@[i2]
    } else {
        inner0.circularity
    };
    let (i3, s3) = spec_mutation_draw(c.outer_size_mut_prob, c.outer_margin_probs.weights@, s2);
    let r_out = if i3 >= 0 {
        if r_in + c.outer_margin_probs.values@[i3] <= MAX_KERNEL_RADIUS {
            (r_in + c.outer_margin_probs.values@[i3]) as usize
        } else {
            MAX_KERNEL_RADIUS
        }
    } else {
        outer0.radius
    };
    let (i4, s4) = spec_mutation_draw(c.outer_rad_mut_prob, c.circ_probs.weights@, s3);
    let c_out = if i4 >= 0 {
        c.circ_probs.values@[i4]
    } else {
        outer0.circularity
    };
    (
        Kernel { radius: r_in, circularity: c_in },
        Kernel { radius: r_out, circularity: c_out },
        s4,
    )
}

/// What carving one step leaves in a cell whose offset from the stamp
/// center is `(dx, dy)`: the inner kernel carves `Empty` over anything, the
/// outer kernel carves `Freeze` only over untouched `Hookable` terrain, and
/// everything else keeps its old value.
pub open spec fn spec_carved_cell(
    old_cell: BlockType,
    inner: Kernel,
    outer: Kernel,
    dx: int,
    dy: int,
) -> BlockType {
    if spec_kernel_contains(inner, dx, dy) {
        BlockType::Empty
    } else if spec_kernel_contains(outer, dx, dy) && old_cell == BlockType::Hookable {
        BlockType::Freeze
    } else {
        old_cell
    }
}

/// The stuck condition of one step: with the progress bookkeeping in force
/// after this step's move (an accepted skip restarts it), the new position
/// does not better the best seen goal distance by more than the lock
/// distance, and the delay budget is already used up.
pub open spec fn spec_step_stuck(
    c: GenerationConfig,
    w0: CuteWalker,
    new_pos: Position,
    skip_taken: bool,
) -> bool {
    let goal = w0.waypoints@[w0.goal_index as int];
    let d = spec_dist_sqr(new_pos, goal);
    let best = if skip_taken {
        u64::MAX as int
    } else {
        w0.lock_best_dist_sqr as int
    };
    let delay = if skip_taken {
        0
    } else {
        w0.lock_delay as int
    };
    &&& !(d < best && best - d > c.pos_lock_max_dist * c.pos_lock_max_dist)
    &&& delay >= c.pos_lock_max_delay
}

impl CuteWalker {
    /// One walker tick: possibly skip ahead to the goal (validated against
    /// the skip safety rules), otherwise take one momentum- and
    /// rank-weighted cardinal step toward it; then stamp the inner kernel
    /// as `Empty` and the outer kernel as `Freeze` at the new position, and
    /// book progress for stuck detection.
    ///
    /// A step that would leave the grid fails with `OutOfBounds` and
    /// changes nothing; a run whose progress has lagged longer than the
    /// configured delay fails with `Stuck` (the carving of this step
    /// stands). A rejected skip is recovered locally.
    #[verifier::rlimit(100)]
    #[verifier::spinoff_prover]
    pub fn probabilistic_step(
        &mut self,
        grid: &mut Grid,
        config: &GenerationConfig,
        rnd: &mut Random,
    ) -> (r: Result<(), GenerationError>)
        requires
            old(grid).wf(),
            old(self).wf(old(grid).width as int, old(grid).height as int),
            !old(self).finished,
            config.wf(),
            old(self).steps < 0x1000_0000,
        ensures
            final(grid).wf(),
            final(grid).same_shape(*old(grid)),
            final(self).wf(old(grid).width as int, old(grid).height as int),
            final(self).waypoints == old(self).waypoints,
            final(self).goal_index == old(self).goal_index,
            final(self).finished == old(self).finished,
            final(self).inner_kernel == old(self).inner_kernel,
            final(self).outer_kernel == old(self).outer_kernel,
            r is Ok || (r matches Err(GenerationError::OutOfBounds(st)) && st == old(self).steps)
                || (r matches Err(GenerationError::Stuck(st)) && st == old(self).steps + 1),
            r matches Err(GenerationError::OutOfBounds(_)) ==> old(self).pos.x == 0 || old(self).pos.x + 1 == old(grid).width || old(self).pos.y == 0 || old(self).pos.y + 1 == old(grid).height,
            r matches Err(GenerationError::Stuck(_)) ==> old(self).lock_delay
                >= config.pos_lock_max_delay,
            (r is Ok || r matches Err(GenerationError::Stuck(_))) ==> (r matches Err(
                GenerationError::Stuck(_),
            ) <==> spec_step_stuck(
                *config,
                *old(self),
                final(self).pos,
                final(self).skips.accepted@.len() != old(self).skips.accepted@.len(),
            )),
            final(self).skips.min_length == old(self).skips.min_length,
            final(self).skips.max_length == old(self).skips.max_length,
            final(self).skips.min_spacing_sqr == old(self).skips.min_spacing_sqr,
            final(self).skips.budget == old(self).skips.budget,
            // a skip fires exactly when progress has lagged past half the
            // delay budget and the jump from the current position to the
            // current waypoint passes every safety rule; what is recorded
            // is exactly that jump
            (r is Ok || r matches Err(GenerationError::Stuck(_))) ==> (final(self).skips.accepted@.len() != old(self).skips.accepted@.len() <==> (old(self).lock_delay
                > config.pos_lock_max_delay / 2 && old(self).skips.spec_acceptable(
                old(self).pos,
                spec_chebyshev(old(self).pos, old(self).waypoints@[old(self).goal_index as int]),
            ))),
            (r is Ok || r matches Err(GenerationError::Stuck(_))) && final(self).skips.accepted@.len() != old(self).skips.accepted@.len() ==> final(self).skips.accepted@ == old(self).skips.accepted@.push(
                Skip {
                    start: old(self).pos,
                    length: spec_chebyshev(
                        old(self).pos,
                        old(self).waypoints@[old(self).goal_index as int],
                    ) as usize,
                },
            ) && final(self).pos == old(self).waypoints@[old(self).goal_index as int],
            // with momentum certain and no skip fired, the step leaves the
            // grid exactly when one step in the repeated direction would
            (old(self).last_direction is Some && config.momentum_prob >= PROB_UNIT && !(old(self).lock_delay > config.pos_lock_max_delay / 2 && old(self).skips.spec_acceptable(
                old(self).pos,
                spec_chebyshev(old(self).pos, old(self).waypoints@[old(self).goal_index as int]),
            ))) ==> (r matches Err(GenerationError::OutOfBounds(_)) <==> (old(self).pos.x as int
                + spec_shift_dx(old(self).last_direction.unwrap()) < 0 || old(self).pos.x as int
                + spec_shift_dx(old(self).last_direction.unwrap()) >= old(grid).width as int || old(self).pos.y as int + spec_shift_dy(old(self).last_direction.unwrap()) < 0 || old(self).pos.y as int + spec_shift_dy(old(self).last_direction.unwrap()) >= old(grid).height as int)),
            // the sampler advances by exactly the draws the step takes: none
            // on an accepted skip, the momentum coin and, on a miss, one
            // rank draw otherwise
            final(self).skips.accepted@.len() != old(self).skips.accepted@.len() ==> *final(rnd)
                == *old(rnd),
            final(self).skips.accepted@.len() == old(self).skips.accepted@.len() && old(self).last_direction is None ==> final(rnd).state == spec_next_state(old(rnd).state),
            final(self).skips.accepted@.len() == old(self).skips.accepted@.len() && old(self).last_direction is Some ==> final(rnd).state == (
            if spec_output(old(rnd).state) % (PROB_UNIT as u64) < config.momentum_prob as u64 {
                spec_next_state(old(rnd).state)
            } else {
                spec_next_state(spec_next_state(old(rnd).state))
            }),
            (r is Ok || r matches Err(GenerationError::Stuck(_))) ==> final(grid).cell(
                final(self).pos.x as int,
                final(self).pos.y as int,
            ) == BlockType::Empty,
            r matches Err(GenerationError::OutOfBounds(_)) ==> *final(grid) == *old(grid)
                && *final(self) == *old(self),
            (r is Ok || r matches Err(GenerationError::Stuck(_))) ==> final(self).steps == old(self).steps + 1 && (forall|i: int, j: int|
                old(grid).in_bounds(i, j) ==> #[trigger] final(grid).cell(i, j)
                    == spec_carved_cell(
                    old(grid).cell(i, j),
                    spec_effective_kernel(
                        *config,
                        final(self).steps as int,
                        final(self).straight,
                        final(self).inner_kernel,
                    ),
                    final(self).outer_kernel,
                    i - final(self).pos.x as int,
                    j - final(self).pos.y as int,
                )),
            (r is Ok || r matches Err(GenerationError::Stuck(_))) ==> ((final(self).skips.accepted@.len() == old(self).skips.accepted@.len() + 1 && final(self).pos
                == old(self).waypoints@[old(self).goal_index as int] && final(self).last_direction
                == old(self).last_direction) || (final(self).last_direction matches Some(d)
                && final(self).skips == old(self).skips && final(self).pos.x as int == old(self).pos.x + spec_shift_dx(d) && final(self).pos.y as int == old(self).pos.y
                + spec_shift_dy(d))),
            config.momentum_prob >= PROB_UNIT && old(self).last_direction is Some && final(self).skips == old(self).skips && (r is Ok || r matches Err(GenerationError::Stuck(_)))
                ==> final(self).last_direction == old(self).last_direction && final(self).pos.x as int == old(self).pos.x + spec_shift_dx(old(self).last_direction.unwrap())
                && final(self).pos.y as int == old(self).pos.y + spec_shift_dy(
                old(self).last_direction.unwrap(),
            ),
    {
        let goal = self.waypoints[self.goal_index];
        let mut moved_by_skip = false;
        if self.lock_delay > config.pos_lock_max_delay / 2 {
            let len = self.pos.chebyshev_dist(&goal);
            if self.skips.try_accept(self.pos, len) {
                self.pos = goal;
                self.lock_best_dist_sqr = u64::MAX;
                self.lock_delay = 0;
                moved_by_skip = true;
            }
        }
        if !moved_by_skip {
            let ranked = rank_directions(&self.pos, &goal);
            let dir = choose_shift(rnd, config, &ranked, self.last_direction);
            let np: Position = match dir {
                ShiftDirection::Up => {
                    if self.pos.y == 0 {
                        return Err(GenerationError::OutOfBounds(self.steps));
                    }
                    Position::new(self.pos.x, self.pos.y - 1)
                },
                ShiftDirection::Right => {
                    if self.pos.x + 1 >= grid.width {
                        return Err(GenerationError::OutOfBounds(self.steps));
                    }
                    Position::new(self.pos.x + 1, self.pos.y)
                },
                ShiftDirection::Down => {
                    if self.pos.y + 1 >= grid.height {
                        return Err(GenerationError::OutOfBounds(self.steps));
                    }
                    Position::new(self.pos.x, self.pos.y + 1)
                },
                ShiftDirection::Left => {
                    if self.pos.x == 0 {
                        return Err(GenerationError::OutOfBounds(self.steps));
                    }
                    Position::new(self.pos.x - 1, self.pos.y)
                },
            };
            self.straight = match self.last_direction {
                Some(ld) => ld == dir,
                None => false,
            };
            self.last_direction = Some(dir);
            self.pos = np;
        }
        self.steps = self.steps + 1;
        let eff = effective_inner_kernel(config, self.steps, self.straight, &self.inner_kernel);
        let ghost g0 = *grid;
        grid.apply_kernel(&self.pos, &eff, &BlockType::Empty, true);
        let ghost g1 = *grid;
        grid.apply_kernel(&self.pos, &self.outer_kernel, &BlockType::Freeze, false);
        proof {
            assert forall|i: int, j: int| g0.in_bounds(i, j) implies #[trigger] grid.cell(i, j)
                == spec_carved_cell(
                g0.cell(i, j),
                eff,
                self.outer_kernel,
                i - self.pos.x as int,
                j - self.pos.y as int,
            ) by {
                assert(g1.in_bounds(i, j));
                assert(g1.cell(i, j) == (
                    if spec_kernel_contains(eff, i - self.pos.x as int, j - self.pos.y as int)
                        && spec_writable(g0.cell(i, j), true) {
                        BlockType::Empty
                    } else {
                        g0.cell(i, j)
                    }));
                assert(grid.cell(i, j) == (
                    if spec_kernel_contains(
                        self.outer_kernel,
                        i - self.pos.x as int,
                        j - self.pos.y as int,
                    ) && spec_writable(g1.cell(i, j), false) {
                        BlockType::Freeze
                    } else {
                        g1.cell(i, j)
                    }));
            }
        }
        proof {
            crate::kernel::lemma_kernel_contains_center(eff);
        }
        let d = self.pos.dist_sqr(&goal);
        let lmd = config.pos_lock_max_dist as u64;
        proof {
            assert(lmd * lmd <= 0x10000u64 * 0x10000u64) by (nonlinear_arith)
                requires
                    lmd <= 0x10000u64,
            ;
        }
        let lock_thresh = lmd * lmd;
        if d < self.lock_best_dist_sqr && self.lock_best_dist_sqr - d > lock_thresh {
            self.lock_best_dist_sqr = d;
            self.lock_delay = 0;
            Ok(())
        } else if self.lock_delay < config.pos_lock_max_delay {
            self.lock_delay = self.lock_delay + 1;
            Ok(())
        } else {
            Err(GenerationError::Stuck(self.steps))
        }
    }
}

/// Rank the four cardinal shift directions by the squared goal distance a
/// step in each would leave, best (smallest) first.
pub fn rank_directions(pos: &Position, goal: &Position) -> (r: Vec<ShiftDirection>)
    requires
        pos.x < 0x2_0000,
        pos.y < 0x2_0000,
        goal.x < 0x2_0000,
        goal.y < 0x2_0000,
    ensures
        r@.len() == 4,
        forall|i: int, j: int|
            0 <= i < j < 4 ==> spec_shift_key(*pos, *goal, #[trigger] r@[i])
                <= spec_shift_key(*pos, *goal, #[trigger] r@[j]),
        r@.contains(ShiftDirection::Up),
        r@.contains(ShiftDirection::Right),
        r@.contains(ShiftDirection::Down),
        r@.contains(ShiftDirection::Left),
{
    let mut d0 = ShiftDirection::Up;
    let mut d1 = ShiftDirection::Right;
    let mut d2 = ShiftDirection::Down;
    let mut d3 = ShiftDirection::Left;
    let mut k0 = shift_key(pos, goal, d0);
    let mut k1 = shift_key(pos, goal, d1);
    let mut k2 = shift_key(pos, goal, d2);
    let mut k3 = shift_key(pos, goal, d3);
    if k0 > k1 {
        let td = d0;
        d0 = d1;
        d1 = td;
        let tk = k0;
        k0 = k1;
        k1 = tk;
    }
    if k2 > k3 {
        let td = d2;
        d2 = d3;
        d3 = td;
        let tk = k2;
        k2 = k3;
        k3 = tk;
    }
    if k0 > k2 {
        let td = d0;
        d0 = d2;
        d2 = td;
        let tk = k0;
        k0 = k2;
        k2 = tk;
    }
    if k1 > k3 {
        let td = d1;
        d1 = d3;
        d3 = td;
        let tk = k1;
        k1 = k3;
        k3 = tk;
    }
    if k1 > k2 {
        let td = d1;
        d1 = d2;
        d2 = td;
        let tk = k1;
        k1 = k2;
        k2 = tk;
    }
    let r = vec![d0, d1, d2, d3];
    proof {
        assert(r@[0] == d0 && r@[1] == d1 && r@[2] == d2 && r@[3] == d3);
        assert(r@.contains(ShiftDirection::Up));
        assert(r@.contains(ShiftDirection::Right));
        assert(r@.contains(ShiftDirection::Down));
        assert(r@.contains(ShiftDirection::Left));
    }
    r
}

/// Choose the next shift direction: with the configured momentum
/// probability repeat the previous one, otherwise draw a rank from the
/// profile's rank-indexed weight table. A momentum probability of one and a
/// known previous direction always repeat it.
pub fn choose_shift(
    rnd: &mut Random,
    config: &GenerationConfig,
    ranked: &Vec<ShiftDirection>,
    last: Option<ShiftDirection>,
) -> (d: ShiftDirection)
    requires
        config.wf(),
        ranked@.len() == 4,
    ensures
        config.momentum_prob >= PROB_UNIT && last is Some ==> d == last.unwrap(),
        (last matches Some(ld) && d == ld) || (exists|i: int|
            0 <= i < 4 && d == ranked@[i] && config.shift_weights@[i] > 0),
        last is Some && spec_output(old(rnd).state) % (PROB_UNIT as u64) < config.momentum_prob
            as u64 ==> d == last.unwrap() && final(rnd).state == spec_next_state(old(rnd).state),
        last is Some && spec_output(old(rnd).state) % (PROB_UNIT as u64) >= config.momentum_prob
            as u64 ==> d == ranked@[spec_sample_index(
            spec_next_state(old(rnd).state),
            config.shift_weights@,
        )] && final(rnd).state == spec_next_state(spec_next_state(old(rnd).state)),
        last is None ==> d == ranked@[spec_sample_index(old(rnd).state, config.shift_weights@)]
            && final(rnd).state == spec_next_state(old(rnd).state),
{
    if let Some(ld) = last {
        if rnd.with_probability(config.momentum_prob) {
            return ld;
        }
    }
    proof {
        lemma_weight_prefix_bound(config.shift_weights@, 4, 0xffff_ffff);
    }
    match rnd.sample_index(&config.shift_weights) {
        Ok(i) => ranked[i],
        Err(_) => {
            proof {
                assert(false);
            }
            ranked[0]
        },
    }
}

/// The inner kernel size actually stamped at a given step, after the two
/// deterministic stylistic modifiers. Fading interpolates the size linearly
/// from `fade_max_size` down to `fade_min_size` over the first `fade_steps`
/// steps; pulsing then widens the stamp by one cell during every other
/// period, with a shorter period right after a corner, capped at
/// `pulse_max_kernel_size`. Both are functions of the step counter alone.
pub open spec fn spec_effective_inner_size(
    c: GenerationConfig,
    steps: int,
    straight: bool,
    base: int,
) -> int {
    let faded = if 0 <= steps < c.fade_steps && c.fade_max_size >= c.fade_min_size {
        c.fade_max_size - (c.fade_max_size - c.fade_min_size) * steps / (c.fade_steps as int)
    } else {
        base
    };
    if c.enable_pulse {
        let period = if straight {
            c.pulse_straight_delay as int
        } else {
            c.pulse_corner_delay as int
        };
        if period > 0 && (steps / period) % 2 == 1 && faded + 1 <= c.pulse_max_kernel_size {
            faded + 1
        } else {
            faded
        }
    } else {
        faded
    }
}

/// The whole effective stamp for a step: the effective size with the inner
/// kernel's circularity.
pub open spec fn spec_effective_kernel(
    c: GenerationConfig,
    steps: int,
    straight: bool,
    inner: Kernel,
) -> Kernel {
    Kernel {
        radius: spec_effective_inner_size(c, steps, straight, inner.radius as int) as usize,
        circularity: inner.circularity,
    }
}

/// Compute the effective inner kernel for this step; only the size varies,
/// the circularity is the current inner kernel's.
pub fn effective_inner_kernel(
    config: &GenerationConfig,
    steps: usize,
    straight: bool,
    inner: &Kernel,
) -> (k: Kernel)
    requires
        config.wf(),
        inner.wf(),
    ensures
        k.radius == spec_effective_inner_size(
            *config,
            steps as int,
            straight,
            inner.radius as int,
        ),
        k.circularity == inner.circularity,
        k == spec_effective_kernel(*config, steps as int, straight, *inner),
        k.wf(),
{
    let faded: usize = if steps < config.fade_steps && config.fade_max_size
        >= config.fade_min_size {
        let diff = config.fade_max_size - config.fade_min_size;
        let fs = config.fade_steps;
        proof {
            assert((diff as int) * (steps as int) <= 1024 * 0x1000_0000) by (nonlinear_arith)
                requires
                    0 <= diff as int && diff as int <= 1024,
                    0 <= steps as int && (steps as int) <= 0x1000_0000,
            ;
            assert((diff as int) * (steps as int) / (fs as int) <= diff as int)
                by (nonlinear_arith)
                requires
                    0 <= diff as int,
                    0 <= steps as int && (steps as int) < (fs as int),
            ;
        }
        let drop_u64: u64 = (diff as u64) * (steps as u64) / (fs as u64);
        let drop: usize = drop_u64 as usize;
        config.fade_max_size - drop
    } else {
        inner.radius
    };
    let pulsed: usize = if config.enable_pulse {
        let period = if straight {
            config.pulse_straight_delay
        } else {
            config.pulse_corner_delay
        };
        if period > 0 && (steps / period) % 2 == 1 && faded + 1 <= config.pulse_max_kernel_size {
            faded + 1
        } else {
            faded
        }
    } else {
        faded
    };
    Kernel { radius: pulsed, circularity: inner.circularity }
}

} // verus!
