//! Generation profiles and map skeletons.
//!
//! A profile is a bag of named numeric parameters and weighted-distribution
//! tables, treated as read-only input to every core operation. Probabilities
//! are stated in basis points of [`crate::random::PROB_UNIT`]; circularities
//! in percent; distances in cells.
use vstd::prelude::*;

use crate::kernel::MAX_KERNEL_RADIUS;
use crate::map::MAX_MAP_SIDE;
use crate::position::Position;
use crate::random::RandomDistConfig;
use crate::random::spec_weight_prefix;
use crate::ConfigError;

verus! {

/// Shape of a map: the ordered waypoint sequence the walker follows, and the
/// grid dimensions. The first waypoint doubles as the spawn cell.
pub struct MapConfig {
    /// name of the map config
    pub name: String,
    /// shape of a map using waypoints
    pub waypoints: Vec<Position>,
    /// width of the map
    pub width: usize,
    /// height of the map
    pub height: usize,
}

impl MapConfig {
    /// A usable skeleton: positive dimensions within the engine's cap and a
    /// nonempty waypoint sequence that stays inside them.
    pub open spec fn wf(self) -> bool {
        &&& 1 <= self.width <= MAX_MAP_SIDE
        &&& 1 <= self.height <= MAX_MAP_SIDE
        &&& self.waypoints@.len() >= 1
        &&& (forall|i: int|
            0 <= i < self.waypoints@.len() ==> (#[trigger] self.waypoints@[i]).x < self.width
                && self.waypoints@[i].y < self.height)
    }

    /// Whether [`Self::wf`] holds, checked at run time.
    pub fn check(&self) -> (b: bool)
        ensures
            b == self.wf(),
    {
        if self.width < 1 || self.width > MAX_MAP_SIDE || self.height < 1 || self.height
            > MAX_MAP_SIDE {
            return false;
        }
        if self.waypoints.len() < 1 {
            return false;
        }
        let mut i: usize = 0;
        while i < self.waypoints.len()
            invariant
                0 <= i <= self.waypoints@.len(),
                forall|j: int|
                    0 <= j < i ==> (#[trigger] self.waypoints@[j]).x < self.width
                        && self.waypoints@[j].y < self.height,
            decreases self.waypoints@.len() - i,
        {
            if self.waypoints[i].x >= self.width || self.waypoints[i].y >= self.height {
                return false;
            }
            i += 1;
        }
        true
    }
}

/// A generation preset: every tunable the engine reads during one run.
pub struct GenerationConfig {
    /// name of the preset
    pub name: String,
    /// probability for mutating inner kernel circularity, in basis points
    pub inner_rad_mut_prob: u32,
    /// probability for mutating inner kernel size, in basis points
    pub inner_size_mut_prob: u32,
    /// probability for mutating outer kernel circularity, in basis points
    pub outer_rad_mut_prob: u32,
    /// probability for mutating outer kernel margin, in basis points
    pub outer_size_mut_prob: u32,
    /// probability weighting for random selection from best to worst shift
    /// direction toward the next goal; index 0 weighs the best-ranked one
    pub shift_weights: Vec<u64>,
    /// probability for doing the last shift direction again, in basis points
    pub momentum_prob: u32,
    /// min distance to next waypoint that is considered reached, in cells
    pub waypoint_reached_dist: usize,
    /// distribution over inner kernel sizes
    pub inner_size_probs: RandomDistConfig<usize>,
    /// distribution over outer kernel margins
    pub outer_margin_probs: RandomDistConfig<usize>,
    /// distribution over kernel circularities, in percent
    pub circ_probs: RandomDistConfig<u8>,
    /// (min, max) length for skips, in cells
    pub skip_length_bounds: (usize, usize),
    /// min squared distance between accepted skips; skip candidates closer
    /// than this to an accepted skip are invalidated
    pub skip_min_spacing_sqr: usize,
    /// maximum total length the run is allowed to skip, so that different
    /// parts of a map are not connected by shortcuts
    pub max_level_skip: usize,
    /// enable pulse
    pub enable_pulse: bool,
    /// pulse period while the walk goes straight, in steps
    pub pulse_straight_delay: usize,
    /// pulse period right after a corner, in steps
    pub pulse_corner_delay: usize,
    /// cap on the pulsed inner kernel size
    pub pulse_max_kernel_size: usize,
    /// number of initial walker steps to perform fading, from max to min size
    pub fade_steps: usize,
    /// initial max kernel size for fading
    pub fade_max_size: usize,
    /// goal min kernel size for fading
    pub fade_min_size: usize,
    /// maximum valid distance between subwaypoints, in cells
    pub max_subwaypoint_dist: usize,
    /// how close the walker must get to its goal to count as progress, in
    /// cells
    pub pos_lock_max_dist: usize,
    /// how many steps progress may lag before the run is considered stuck
    pub pos_lock_max_delay: usize,
}

/// The three validation conditions a profile provider must establish: no
/// zero inner kernel size, positive fade bounds, a positive subwaypoint
/// distance.
pub open spec fn spec_validate_ok(c: GenerationConfig) -> bool {
    &&& (forall|i: int|
        0 <= i < c.inner_size_probs.values@.len() ==> #[trigger] c.inner_size_probs.values@[i]
            != 0)
    &&& c.fade_max_size != 0
    &&& c.fade_min_size != 0
    &&& c.max_subwaypoint_dist != 0
}

/// The error [`GenerationConfig::validate`] reports for a profile that
/// fails it: the first failing check, in validation order.
pub open spec fn spec_validate_error(c: GenerationConfig) -> ConfigError {
    if exists|i: int|
        0 <= i < c.inner_size_probs.values@.len() && #[trigger] c.inner_size_probs.values@[i]
            == 0 {
        ConfigError::ZeroInnerSize
    } else if c.fade_max_size == 0 || c.fade_min_size == 0 {
        ConfigError::ZeroFadeSize
    } else {
        ConfigError::ZeroSubwaypointDist
    }
}

impl GenerationConfig {
    /// The full structural invariant the engine relies on: the validation
    /// conditions plus well-formed distribution tables whose values stay
    /// within the engine's caps.
    pub open spec fn wf(self) -> bool {
        &&& spec_validate_ok(self)
        &&& self.shift_weights@.len() == 4
        &&& (forall|i: int| 0 <= i < 4 ==> #[trigger] self.shift_weights@[i] <= 0xffff_ffffu64)
        &&& spec_weight_prefix(self.shift_weights@, 4) > 0
        &&& self.inner_size_probs.wf()
        &&& (forall|i: int|
            0 <= i < self.inner_size_probs.values@.len()
                ==> #[trigger] self.inner_size_probs.values@[i] <= MAX_KERNEL_RADIUS)
        &&& self.outer_margin_probs.wf()
        &&& (forall|i: int|
            0 <= i < self.outer_margin_probs.values@.len()
                ==> #[trigger] self.outer_margin_probs.values@[i] <= MAX_KERNEL_RADIUS)
        &&& self.circ_probs.wf()
        &&& (forall|i: int|
            0 <= i < self.circ_probs.values@.len() ==> #[trigger] self.circ_probs.values@[i]
                <= 100)
        &&& self.fade_max_size <= MAX_KERNEL_RADIUS
        &&& self.fade_min_size <= MAX_KERNEL_RADIUS
        &&& self.pulse_max_kernel_size <= MAX_KERNEL_RADIUS
        &&& self.fade_steps <= 0x1000_0000
        &&& self.pulse_straight_delay <= 0x1000_0000
        &&& self.pulse_corner_delay <= 0x1000_0000
        &&& self.waypoint_reached_dist <= 2 * MAX_MAP_SIDE
        &&& self.pos_lock_max_dist <= 2 * MAX_MAP_SIDE
    }

    /// Returns an error if the configuration would let a run crash: a zero
    /// inner kernel size, a zero fade bound, or a non-positive subwaypoint
    /// distance — exactly the first of these that applies, in that order.
    pub fn validate(&self) -> (r: Result<(), ConfigError>)
        ensures
            r is Ok <==> spec_validate_ok(*self),
            r == Result::<(), ConfigError>::Err(ConfigError::ZeroInnerSize) <==> (exists|i: int|
                0 <= i < self.inner_size_probs.values@.len()
                    && #[trigger] self.inner_size_probs.values@[i] == 0),
            r == Result::<(), ConfigError>::Err(ConfigError::ZeroFadeSize) <==> ((forall|i: int|
                0 <= i < self.inner_size_probs.values@.len()
                    ==> #[trigger] self.inner_size_probs.values@[i] != 0) && (self.fade_max_size
                == 0 || self.fade_min_size == 0)),
            r == Result::<(), ConfigError>::Err(ConfigError::ZeroSubwaypointDist) <==> ((
            forall|i: int|
                0 <= i < self.inner_size_probs.values@.len()
                    ==> #[trigger] self.inner_size_probs.values@[i] != 0) && self.fade_max_size
                != 0 && self.fade_min_size != 0 && self.max_subwaypoint_dist == 0),
            r is Err ==> r == Result::<(), ConfigError>::Err(spec_validate_error(*self)),
    {
        let mut i: usize = 0;
        while i < self.inner_size_probs.values.len()
            invariant
                0 <= i <= self.inner_size_probs.values@.len(),
                forall|j: int|
                    0 <= j < i ==> #[trigger] self.inner_size_probs.values@[j] != 0,
            decreases self.inner_size_probs.values@.len() - i,
        {
            if self.inner_size_probs.values[i] == 0 {
                return Err(ConfigError::ZeroInnerSize);
            }
            i += 1;
        }
        if self.fade_max_size == 0 || self.fade_min_size == 0 {
            return Err(ConfigError::ZeroFadeSize);
        }
        if self.max_subwaypoint_dist == 0 {
            return Err(ConfigError::ZeroSubwaypointDist);
        }
        Ok(())
    }

    /// Whether [`Self::wf`] holds, checked at run time.
    pub fn check(&self) -> (b: bool)
        ensures
            b == self.wf(),
    {
        if self.validate().is_err() {
            return false;
        }
        if self.shift_weights.len() != 4 {
            return false;
        }
        let shift_dist = RandomDistConfig::<u8>::new(vec![0u8, 0u8, 0u8, 0u8], clone_weights(&self.shift_weights));
        if !shift_dist.check() {
            return false;
        }
        if !self.inner_size_probs.check() || !self.outer_margin_probs.check()
            || !self.circ_probs.check() {
            return false;
        }
        if !values_at_most(&self.inner_size_probs.values, MAX_KERNEL_RADIUS) {
            return false;
        }
        if !values_at_most(&self.outer_margin_probs.values, MAX_KERNEL_RADIUS) {
            return false;
        }
        if !circs_at_most(&self.circ_probs.values, 100) {
            return false;
        }
        self.fade_max_size <= MAX_KERNEL_RADIUS && self.fade_min_size <= MAX_KERNEL_RADIUS
            && self.pulse_max_kernel_size <= MAX_KERNEL_RADIUS && self.fade_steps <= 0x1000_0000
            && self.pulse_straight_delay <= 0x1000_0000 && self.pulse_corner_delay <= 0x1000_0000
            && self.waypoint_reached_dist <= 2 * MAX_MAP_SIDE && self.pos_lock_max_dist
            <= 2 * MAX_MAP_SIDE
    }
}

impl Default for MapConfig {
    /// The built-in skeleton: a 300 x 300 grid with a six-waypoint S-shaped
    /// course starting at `(50, 250)`, named "default".
    fn default() -> (c: MapConfig)
        ensures
            c.wf(),
            c.name@ == "default"@,
            c.width == 300,
            c.height == 300,
            c.waypoints@ == seq![
                Position { x: 50, y: 250 },
                Position { x: 250, y: 250 },
                Position { x: 250, y: 150 },
                Position { x: 50, y: 150 },
                Position { x: 50, y: 50 },
                Position { x: 250, y: 50 },
            ],
    {
        let mut waypoints: Vec<Position> = Vec::new();
        waypoints.push(Position::new(50, 250));
        waypoints.push(Position::new(250, 250));
        waypoints.push(Position::new(250, 150));
        waypoints.push(Position::new(50, 150));
        waypoints.push(Position::new(50, 50));
        waypoints.push(Position::new(250, 50));
        let name = new_default_name();
        let c = MapConfig { name, waypoints, width: 300, height: 300 };
        proof {
            assert(c.waypoints@ =~= seq![
                Position { x: 50, y: 250 },
                Position { x: 250, y: 250 },
                Position { x: 250, y: 150 },
                Position { x: 50, y: 150 },
                Position { x: 50, y: 50 },
                Position { x: 250, y: 50 },
            ]);
            assert forall|i: int| 0 <= i < c.waypoints@.len() implies (
            #[trigger] c.waypoints@[i]).x < c.width && c.waypoints@[i].y < c.height by {}
        }
        c
    }
}

impl Default for GenerationConfig {
    /// Default values for the individual parameters, the whole literal
    /// value pinned. Mainly a source of per-field defaults; a real run
    /// usually starts from a named preset.
    fn default() -> (c: GenerationConfig)
        ensures
            c.wf(),
            c.name@ == "default"@,
            c.inner_rad_mut_prob == 2500,
            c.inner_size_mut_prob == 5000,
            c.outer_rad_mut_prob == 2500,
            c.outer_size_mut_prob == 5000,
            c.shift_weights@ == seq![40u64, 22u64, 20u64, 18u64],
            c.momentum_prob == 100,
            c.waypoint_reached_dist == 250,
            c.inner_size_probs.values@ == seq![3usize, 5usize],
            c.inner_size_probs.weights@ == seq![25u64, 75u64],
            c.outer_margin_probs.values@ == seq![0usize, 2usize],
            c.outer_margin_probs.weights@ == seq![50u64, 50u64],
            c.circ_probs.values@ == seq![0u8, 60u8, 80u8],
            c.circ_probs.weights@ == seq![75u64, 15u64, 5u64],
            c.skip_length_bounds == (3usize, 11usize),
            c.skip_min_spacing_sqr == 45,
            c.max_level_skip == 90,
            !c.enable_pulse,
            c.pulse_straight_delay == 10,
            c.pulse_corner_delay == 5,
            c.pulse_max_kernel_size == 4,
            c.fade_steps == 60,
            c.fade_max_size == 6,
            c.fade_min_size == 3,
            c.max_subwaypoint_dist == 50,
            c.pos_lock_max_dist == 20,
            c.pos_lock_max_delay == 1000,
    {
        let mut shift_weights: Vec<u64> = Vec::new();
        shift_weights.push(40);
        shift_weights.push(22);
        shift_weights.push(20);
        shift_weights.push(18);
        let mut inner_values: Vec<usize> = Vec::new();
        inner_values.push(3);
        inner_values.push(5);
        let mut inner_weights: Vec<u64> = Vec::new();
        inner_weights.push(25);
        inner_weights.push(75);
        let mut margin_values: Vec<usize> = Vec::new();
        margin_values.push(0);
        margin_values.push(2);
        let mut margin_weights: Vec<u64> = Vec::new();
        margin_weights.push(50);
        margin_weights.push(50);
        let mut circ_values: Vec<u8> = Vec::new();
        circ_values.push(0);
        circ_values.push(60);
        circ_values.push(80);
        let mut circ_weights: Vec<u64> = Vec::new();
        circ_weights.push(75);
        circ_weights.push(15);
        circ_weights.push(5);
        let name = new_default_name();
        let c = GenerationConfig {
            name,
            inner_rad_mut_prob: 2500,
            inner_size_mut_prob: 5000,
            outer_rad_mut_prob: 2500,
            outer_size_mut_prob: 5000,
            shift_weights,
            momentum_prob: 100,
            waypoint_reached_dist: 250,
            inner_size_probs: RandomDistConfig::new(inner_values, inner_weights),
            outer_margin_probs: RandomDistConfig::new(margin_values, margin_weights),
            circ_probs: RandomDistConfig::new(circ_values, circ_weights),
            skip_length_bounds: (3, 11),
            skip_min_spacing_sqr: 45,
            max_level_skip: 90,
            enable_pulse: false,
            pulse_straight_delay: 10,
            pulse_corner_delay: 5,
            pulse_max_kernel_size: 4,
            fade_steps: 60,
            fade_max_size: 6,
            fade_min_size: 3,
            max_subwaypoint_dist: 50,
            pos_lock_max_dist: 20,
            pos_lock_max_delay: 1000,
        };
        proof {
            assert(c.shift_weights@ =~= seq![40u64, 22u64, 20u64, 18u64]);
            assert(c.inner_size_probs.values@ =~= seq![3usize, 5usize]);
            assert(c.inner_size_probs.weights@ =~= seq![25u64, 75u64]);
            assert(c.outer_margin_probs.values@ =~= seq![0usize, 2usize]);
            assert(c.outer_margin_probs.weights@ =~= seq![50u64, 50u64]);
            assert(c.circ_probs.values@ =~= seq![0u8, 60u8, 80u8]);
            assert(c.circ_probs.weights@ =~= seq![75u64, 15u64, 5u64]);
            let sw = c.shift_weights@;
            assert(sw.len() == 4 && sw[0] == 40 && sw[1] == 22 && sw[2] == 20 && sw[3] == 18);
            assert(spec_weight_prefix(sw, 0) == 0);
            assert(spec_weight_prefix(sw, 1) == 40);
            assert(spec_weight_prefix(sw, 2) == 62);
            assert(spec_weight_prefix(sw, 3) == 82);
            assert(spec_weight_prefix(sw, 4) == 100);
            let iw = c.inner_size_probs.weights@;
            assert(iw.len() == 2 && iw[0] == 25 && iw[1] == 75);
            assert(spec_weight_prefix(iw, 0) == 0);
            assert(spec_weight_prefix(iw, 1) == 25);
            assert(spec_weight_prefix(iw, 2) == 100);
            let mw = c.outer_margin_probs.weights@;
            assert(mw.len() == 2 && mw[0] == 50 && mw[1] == 50);
            assert(spec_weight_prefix(mw, 0) == 0);
            assert(spec_weight_prefix(mw, 1) == 50);
            assert(spec_weight_prefix(mw, 2) == 100);
            let cw = c.circ_probs.weights@;
            assert(cw.len() == 3 && cw[0] == 75 && cw[1] == 15 && cw[2] == 5);
            assert(spec_weight_prefix(cw, 0) == 0);
            assert(spec_weight_prefix(cw, 1) == 75);
            assert(spec_weight_prefix(cw, 2) == 90);
            assert(spec_weight_prefix(cw, 3) == 95);
        }
        c
    }
}

/// The literal preset name both defaults carry.
fn new_default_name() -> (s: String)
    ensures
        s@ == "default"@,
{
    let s = String::from_str("default");
    proof {
        reveal_strlit("default");
    }
    s
}

/// A copy of a weight vector, element for element.
fn clone_weights(w: &Vec<u64>) -> (r: Vec<u64>)
    ensures
        r@ == w@,
{
    let mut r: Vec<u64> = Vec::new();
    let mut i: usize = 0;
    while i < w.len()
        invariant
            0 <= i <= w@.len(),
            r@ == w@.subrange(0, i as int),
        decreases w@.len() - i,
    {
        r.push(w[i]);
        proof {
            assert(r@ =~= w@.subrange(0, i + 1));
        }
        i += 1;
    }
    proof {
        assert(r@ =~= w@);
    }
    r
}

/// Whether every entry stays at or below `cap`.
fn values_at_most(v: &Vec<usize>, cap: usize) -> (b: bool)
    ensures
        b == (forall|i: int| 0 <= i < v@.len() ==> #[trigger] v@[i] <= cap),
{
    let mut i: usize = 0;
    while i < v.len()
        invariant
            0 <= i <= v@.len(),
            forall|j: int| 0 <= j < i ==> #[trigger] v@[j] <= cap,
        decreases v@.len() - i,
    {
        if v[i] > cap {
            return false;
        }
        i += 1;
    }
    true
}

/// Whether every entry stays at or below `cap`.
fn circs_at_most(v: &Vec<u8>, cap: u8) -> (b: bool)
    ensures
        b == (forall|i: int| 0 <= i < v@.len() ==> #[trigger] v@[i] <= cap),
{
    let mut i: usize = 0;
    while i < v.len()
        invariant
            0 <= i <= v@.len(),
            forall|j: int| 0 <= j < i ==> #[trigger] v@[j] <= cap,
        decreases v@.len() - i,
    {
        if v[i] > cap {
            return false;
        }
        i += 1;
    }
    true
}

} // verus!
