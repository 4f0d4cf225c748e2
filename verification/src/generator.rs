//! Orchestration of one full generation run: initial state from a profile
//! and seed, the step loop, and the post-processing repair passes.
use vstd::prelude::*;

use crate::config::GenerationConfig;
use crate::config::MapConfig;
use crate::kernel::Kernel;
use crate::kernel::MAX_KERNEL_RADIUS;
use crate::map::BlockType;
use crate::map::Grid;
use crate::position::spec_chebyshev;
use crate::position::spec_dist_sqr;
use crate::position::spec_shift_dx;
use crate::position::spec_shift_dy;
use crate::position::Position;
use crate::random::Random;
use crate::random::PROB_UNIT;
use crate::walker::spec_carved_cell;
use crate::walker::spec_effective_kernel;
use crate::walker::spec_mutated_kernels;
use crate::walker::spec_step_stuck;
use crate::config::spec_validate_error;
use crate::config::spec_validate_ok;
use crate::walker::CuteWalker;
use crate::ConfigError;
use crate::GenerationError;

verus! {

/// Whether the walker's current waypoint counts as reached under the
/// profile's threshold: within that distance of the walker's position.
pub open spec fn spec_goal_reached(w: CuteWalker, reached_dist: int) -> bool {
    !w.finished && spec_dist_sqr(w.pos, w.waypoints@[w.goal_index as int]) <= reached_dist
        * reached_dist
}

/// The walker as the directional step sees it: after the goal check has
/// possibly advanced the cursor and restarted the progress bookkeeping.
pub open spec fn spec_after_goal_check(w: CuteWalker, reached_dist: int) -> CuteWalker {
    if spec_goal_reached(w, reached_dist) {
        CuteWalker {
            goal_index: (w.goal_index + 1) as usize,
            finished: w.goal_index + 1 == w.waypoints@.len(),
            lock_best_dist_sqr: u64::MAX,
            lock_delay: 0,
            ..w
        }
    } else {
        w
    }
}

/// The exact cell-level shape of every successful run's result: the edge
/// repair applied to a pre-processing grid `pre`, then the spawn room with
/// its `Start` border at the spawn, then the finish room with its `Finish`
/// border around the walker's final position `fin`.
pub open spec fn spec_post_processed(pre: Grid, fin: Position, m: Grid) -> bool {
    forall|x: int, y: int|
        m.in_bounds(x, y) ==> #[trigger] m.cell(x, y) == spec_room_cell(
            spec_room_cell(
                spec_repaired_cell(pre, x, y),
                m.spawn,
                ROOM_MARGIN as int,
                BlockType::Start,
                x,
                y,
            ),
            fin,
            ROOM_MARGIN as int,
            BlockType::Finish,
            x,
            y,
        )
}

/// The shape of every grid a successful run hands out: the post-processing
/// composition applied to some well-formed pre-grid of the same dimensions
/// and spawn, with the finish room centered at some interior position.
pub open spec fn spec_generated_shape(m: Grid) -> bool {
    exists|pre: Grid, fin: Position|
        #![trigger spec_post_processed(pre, fin, m)]
        pre.wf() && pre.width == m.width && pre.height == m.height && pre.spawn == m.spawn
            && fin.x >= ROOM_MARGIN + 1 && fin.y >= ROOM_MARGIN + 1 && fin.x < m.width && fin.y
            < m.height && spec_post_processed(pre, fin, m)
}

/// Half-side of the spawn and finish rooms the post-processing pass carves.
pub const ROOM_MARGIN: usize = 4;

/// Whether some 8-neighbor of `(x, y)` inside the grid holds solid
/// `Hookable` terrain.
pub open spec fn spec_has_hookable_neighbor(g: Grid, x: int, y: int) -> bool {
    ||| (g.in_bounds(x - 1, y - 1) && g.cell(x - 1, y - 1) == BlockType::Hookable)
    ||| (g.in_bounds(x - 1, y) && g.cell(x - 1, y) == BlockType::Hookable)
    ||| (g.in_bounds(x - 1, y + 1) && g.cell(x - 1, y + 1) == BlockType::Hookable)
    ||| (g.in_bounds(x, y - 1) && g.cell(x, y - 1) == BlockType::Hookable)
    ||| (g.in_bounds(x, y + 1) && g.cell(x, y + 1) == BlockType::Hookable)
    ||| (g.in_bounds(x + 1, y - 1) && g.cell(x + 1, y - 1) == BlockType::Hookable)
    ||| (g.in_bounds(x + 1, y) && g.cell(x + 1, y) == BlockType::Hookable)
    ||| (g.in_bounds(x + 1, y + 1) && g.cell(x + 1, y + 1) == BlockType::Hookable)
}

/// Check the 8 neighbors of `(x, y)` for `Hookable` terrain.
fn has_hookable_neighbor(g: &Grid, x: usize, y: usize) -> (r: bool)
    requires
        g.wf(),
        x < g.width,
        y < g.height,
    ensures
        r == spec_has_hookable_neighbor(*g, x as int, y as int),
{
    let mut found = false;
    if x > 0 && y > 0 && matches!(g.get(x - 1, y - 1), BlockType::Hookable) {
        found = true;
    }
    if x > 0 && matches!(g.get(x - 1, y), BlockType::Hookable) {
        found = true;
    }
    if x > 0 && y + 1 < g.height && matches!(g.get(x - 1, y + 1), BlockType::Hookable) {
        found = true;
    }
    if y > 0 && matches!(g.get(x, y - 1), BlockType::Hookable) {
        found = true;
    }
    if y + 1 < g.height && matches!(g.get(x, y + 1), BlockType::Hookable) {
        found = true;
    }
    if x + 1 < g.width && y > 0 && matches!(g.get(x + 1, y - 1), BlockType::Hookable) {
        found = true;
    }
    if x + 1 < g.width && matches!(g.get(x + 1, y), BlockType::Hookable) {
        found = true;
    }
    if x + 1 < g.width && y + 1 < g.height && matches!(g.get(x + 1, y + 1), BlockType::Hookable) {
        found = true;
    }
    found
}

/// What the edge-bug repair pass leaves in a cell: an `Empty` cell with
/// solid terrain among its 8 neighbors becomes `Freeze`, everything else is
/// kept.
pub open spec fn spec_repaired_cell(g: Grid, x: int, y: int) -> BlockType {
    if g.cell(x, y) == BlockType::Empty && spec_has_hookable_neighbor(g, x, y) {
        BlockType::Freeze
    } else {
        g.cell(x, y)
    }
}

/// One full generation run's state: the walker, the grid it carves, and the
/// seeded random source. Created together, mutated in lock-step, consumed
/// when the run ends.
pub struct Generator {
    pub walker: CuteWalker,
    pub map: Grid,
    pub rnd: Random,
}

impl Generator {
    /// Everything agrees: the grid is well-formed and the walker's position
    /// and waypoints lie inside it.
    pub open spec fn wf(self) -> bool {
        &&& self.map.wf()
        &&& self.walker.wf(self.map.width as int, self.map.height as int)
    }

    /// Derive an initial generator state from a profile, a map skeleton and
    /// a seed: a grid of solid terrain with the spawn at the skeleton's
    /// first waypoint, a walker there with the skeleton's waypoints, and
    /// kernels at the profile's maximum configured sizes.
    pub fn new(config: &GenerationConfig, map_config: &MapConfig, seed: u64) -> (g: Generator)
        requires
            config.wf(),
            map_config.wf(),
        ensures
            g.wf(),
            g.map.width == map_config.width,
            g.map.height == map_config.height,
            g.map.spawn == map_config.waypoints@[0],
            forall|x: int, y: int|
                g.map.in_bounds(x, y) ==> g.map.cell(x, y) == BlockType::Hookable,
            g.walker.pos == map_config.waypoints@[0],
            g.walker.steps == 0,
            g.walker.goal_index == 0,
            !g.walker.finished,
            g.walker.waypoints@ == map_config.waypoints@,
            g.walker.last_direction is None,
            !g.walker.straight,
            g.walker.lock_best_dist_sqr == u64::MAX,
            g.walker.lock_delay == 0,
            g.walker.skips.accepted@.len() == 0,
            g.walker.skips.total_skipped == 0,
            g.walker.skips.min_length == config.skip_length_bounds.0,
            g.walker.skips.max_length == config.skip_length_bounds.1,
            g.walker.skips.min_spacing_sqr == config.skip_min_spacing_sqr,
            g.walker.skips.budget == config.max_level_skip,
            g.walker.inner_kernel == (Kernel { radius: config.fade_max_size, circularity: 0u8 }),
            g.walker.outer_kernel.radius as int == vstd::math::min(
                config.fade_max_size + 2,
                MAX_KERNEL_RADIUS as int,
            ),
            g.walker.outer_kernel.circularity == 10,
            g.rnd.state == seed,
    {
        let spawn = map_config.waypoints[0];
        let map = Grid::new(map_config.width, map_config.height, BlockType::Hookable, spawn);
        let init_inner_kernel = Kernel::new(config.fade_max_size, 0);
        let outer_radius = if config.fade_max_size + 2 <= MAX_KERNEL_RADIUS {
            config.fade_max_size + 2
        } else {
            MAX_KERNEL_RADIUS
        };
        let init_outer_kernel = Kernel::new(outer_radius, 10);
        let waypoints = clone_positions(&map_config.waypoints);
        let walker = CuteWalker::new(spawn, init_inner_kernel, init_outer_kernel, waypoints, config);
        let rnd = Random::new(seed);
        Generator { walker, map, rnd }
    }

    /// One generator tick: advance the waypoint cursor if the goal is
    /// reached (finishing the walker when no waypoint remains), then mutate
    /// the kernels and take one walker step against the owned grid and
    /// sampler. A no-op once the walker is finished.
    #[verifier::rlimit(100)]
    #[verifier::spinoff_prover]
    pub fn step(&mut self, config: &GenerationConfig) -> (r: Result<(), GenerationError>)
        requires
            old(self).wf(),
            config.wf(),
            old(self).walker.steps < 0x1000_0000,
        ensures
            final(self).wf(),
            final(self).map.same_shape(old(self).map),
            final(self).walker.steps <= old(self).walker.steps + 1,
            final(self).walker.waypoints == old(self).walker.waypoints,
            old(self).walker.finished ==> *final(self) == *old(self) && r is Ok,
            r is Ok || (r matches Err(GenerationError::OutOfBounds(_)) || r matches Err(
                GenerationError::Stuck(_),
            )),
            // a reached waypoint advances the cursor by one, an unreached one leaves it
            !old(self).walker.finished ==> final(self).walker.goal_index as int == (
            if spec_goal_reached(old(self).walker, config.waypoint_reached_dist as int) {
                old(self).walker.goal_index + 1
            } else {
                old(self).walker.goal_index as int
            }),
            // once the cursor passes the last waypoint nothing else happens this tick
            !old(self).walker.finished && spec_goal_reached(
                old(self).walker,
                config.waypoint_reached_dist as int,
            ) && old(self).walker.goal_index + 1 == old(self).walker.waypoints@.len() ==> r is Ok
                && final(self).walker.finished && final(self).map == old(self).map && final(self).walker.pos == old(self).walker.pos && final(self).walker.steps == old(self).walker.steps && final(self).walker.inner_kernel == old(self).walker.inner_kernel
                && final(self).walker.outer_kernel == old(self).walker.outer_kernel && final(self).walker.last_direction == old(self).walker.last_direction && final(self).rnd == old(self).rnd,
            // finished is monotone: it never reverts to walking
            old(self).walker.finished ==> final(self).walker.finished,
            // a walking tick that carved did exactly one step: counter up one,
            // and every cell is the two-kernel stamp at the new position
            (r is Ok || r matches Err(GenerationError::Stuck(_))) && !final(self).walker.finished
                ==> final(self).walker.steps == old(self).walker.steps + 1 && (forall|x: int, y: int|
                old(self).map.in_bounds(x, y) ==> #[trigger] final(self).map.cell(x, y)
                    == spec_carved_cell(
                    old(self).map.cell(x, y),
                    spec_effective_kernel(
                        *config,
                        final(self).walker.steps as int,
                        final(self).walker.straight,
                        final(self).walker.inner_kernel,
                    ),
                    final(self).walker.outer_kernel,
                    x - final(self).walker.pos.x as int,
                    y - final(self).walker.pos.y as int,
                )),
            // the move was a validated skip to the current waypoint or one cardinal step
            (r is Ok || r matches Err(GenerationError::Stuck(_))) && !final(self).walker.finished
                ==> ((final(self).walker.skips.accepted@.len() == old(self).walker.skips.accepted@.len() + 1 && final(self).walker.pos == final(self).walker.waypoints@[final(self).walker.goal_index as int] && final(self).walker.last_direction == old(self).walker.last_direction) || (final(self).walker.last_direction matches Some(d) && final(self).walker.skips == old(self).walker.skips && final(self).walker.pos.x as int == old(self).walker.pos.x
                + spec_shift_dx(d) && final(self).walker.pos.y as int == old(self).walker.pos.y
                + spec_shift_dy(d))),
            // momentum one repeats the previous direction exactly
            config.momentum_prob >= PROB_UNIT && old(self).walker.last_direction is Some && (
            r is Ok || r matches Err(GenerationError::Stuck(_))) && !final(self).walker.finished
                && final(self).walker.skips == old(self).walker.skips ==> final(self).walker.last_direction == old(self).walker.last_direction && final(self).walker.pos.x as int == old(self).walker.pos.x + spec_shift_dx(
                old(self).walker.last_direction.unwrap(),
            ) && final(self).walker.pos.y as int == old(self).walker.pos.y + spec_shift_dy(
                old(self).walker.last_direction.unwrap(),
            ),
            // a step off the grid is refused from an edge and changes nothing
            r matches Err(GenerationError::OutOfBounds(st)) ==> st == old(self).walker.steps
                && final(self).map == old(self).map && final(self).walker.pos == old(self).walker.pos && final(self).walker.steps == old(self).walker.steps && (old(self).walker.pos.x == 0 || old(self).walker.pos.x + 1 == old(self).map.width || old(self).walker.pos.y == 0 || old(self).walker.pos.y + 1 == old(self).map.height),
            // lagging progress is what forces the stuck report
            r matches Err(GenerationError::Stuck(st)) ==> st == old(self).walker.steps + 1 && (old(self).walker.lock_delay >= config.pos_lock_max_delay || config.pos_lock_max_delay == 0),
            // the stuck condition, both ways: with the bookkeeping in force
            // after the goal check, a walking tick is stuck exactly when
            // the new position does not book progress and the delay budget
            // is already spent
            (r is Ok || r matches Err(GenerationError::Stuck(_))) && !final(self).walker.finished
                ==> (r matches Err(GenerationError::Stuck(_)) <==> spec_step_stuck(
                *config,
                spec_after_goal_check(old(self).walker, config.waypoint_reached_dist as int),
                final(self).walker.pos,
                final(self).walker.skips.accepted@.len() != old(self).walker.skips.accepted@.len(),
            )),
            // a skip fires exactly when progress has lagged past half the
            // delay budget and the jump to the current waypoint passes
            // every safety rule
            (r is Ok || r matches Err(GenerationError::Stuck(_))) && !final(self).walker.finished
                ==> (final(self).walker.skips.accepted@.len() != old(self).walker.skips.accepted@.len() <==> (spec_after_goal_check(
                old(self).walker,
                config.waypoint_reached_dist as int,
            ).lock_delay > config.pos_lock_max_delay / 2 && old(self).walker.skips.spec_acceptable(
                old(self).walker.pos,
                spec_chebyshev(
                    old(self).walker.pos,
                    old(self).walker.waypoints@[spec_after_goal_check(
                        old(self).walker,
                        config.waypoint_reached_dist as int,
                    ).goal_index as int],
                ),
            ))),
            // kernels evolve only by the mutation pass: on every walking
            // tick they equal the mutation spec applied to the entering
            // state, so with all mutation probabilities zero they persist
            !old(self).walker.finished && !final(self).walker.finished ==> final(self).walker.inner_kernel == spec_mutated_kernels(
                *config,
                old(self).walker.inner_kernel,
                old(self).walker.outer_kernel,
                old(self).rnd.state,
            ).0 && final(self).walker.outer_kernel == spec_mutated_kernels(
                *config,
                old(self).walker.inner_kernel,
                old(self).walker.outer_kernel,
                old(self).rnd.state,
            ).1,
            // with momentum certain and no skip fired, a walking tick
            // leaves the grid exactly when one step in the repeated
            // direction would
            (old(self).walker.last_direction is Some && config.momentum_prob >= PROB_UNIT && !old(self).walker.finished && !spec_after_goal_check(
                old(self).walker,
                config.waypoint_reached_dist as int,
            ).finished && !(spec_after_goal_check(
                old(self).walker,
                config.waypoint_reached_dist as int,
            ).lock_delay > config.pos_lock_max_delay / 2 && old(self).walker.skips.spec_acceptable(
                old(self).walker.pos,
                spec_chebyshev(
                    old(self).walker.pos,
                    old(self).walker.waypoints@[spec_after_goal_check(
                        old(self).walker,
                        config.waypoint_reached_dist as int,
                    ).goal_index as int],
                ),
            ))) ==> (r matches Err(GenerationError::OutOfBounds(_)) <==> (old(self).walker.pos.x as int + spec_shift_dx(old(self).walker.last_direction.unwrap()) < 0 || old(self).walker.pos.x as int + spec_shift_dx(old(self).walker.last_direction.unwrap()) >= old(self).map.width as int || old(self).walker.pos.y as int + spec_shift_dy(old(self).walker.last_direction.unwrap()) < 0 || old(self).walker.pos.y as int + spec_shift_dy(old(self).walker.last_direction.unwrap()) >= old(self).map.height as int)),
            // the tracker's configured rules never change during a run
            final(self).walker.skips.min_length == old(self).walker.skips.min_length,
            final(self).walker.skips.max_length == old(self).walker.skips.max_length,
            final(self).walker.skips.min_spacing_sqr == old(self).walker.skips.min_spacing_sqr,
            final(self).walker.skips.budget == old(self).walker.skips.budget,
    {
        match self.walker.is_goal_reached(config.waypoint_reached_dist) {
            Some(true) => {
                self.walker.next_waypoint();
            },
            _ => {},
        }
        if !self.walker.finished {
            self.walker.mutate_kernel(config, &mut self.rnd);
            match self.walker.probabilistic_step(&mut self.map, config, &mut self.rnd) {
                Ok(()) => Ok(()),
                Err(e) => Err(e),
            }
        } else {
            Ok(())
        }
    }

    /// Repair every edge bug: scan the whole grid and convert each `Empty`
    /// cell with a `Hookable` 8-neighbor to `Freeze`. Afterwards no `Empty`
    /// cell is 8-adjacent to a `Hookable` cell.
    pub fn fix_edge_bugs(&mut self)
        requires
            old(self).wf(),
        ensures
            final(self).wf(),
            final(self).map.same_shape(old(self).map),
            final(self).walker == old(self).walker,
            final(self).rnd == old(self).rnd,
            forall|x: int, y: int|
                old(self).map.in_bounds(x, y) ==> #[trigger] final(self).map.cell(x, y)
                    == spec_repaired_cell(old(self).map, x, y),
            forall|x: int, y: int|
                final(self).map.in_bounds(x, y) && #[trigger] final(self).map.cell(x, y)
                    == BlockType::Empty ==> !spec_has_hookable_neighbor(final(self).map, x, y),
    {
        let ghost m0 = self.map;
        let width = self.map.width;
        let height = self.map.height;
        let mut x: usize = 0;
        while x < width
            invariant
                self.map.wf(),
                self.map.same_shape(m0),
                m0.wf(),
                self.walker == old(self).walker,
                self.rnd == old(self).rnd,
                width == m0.width,
                height == m0.height,
                0 <= x <= width,
                forall|i: int, j: int|
                    m0.in_bounds(i, j) ==> #[trigger] self.map.cell(i, j) == (
                    if i < x {
                        spec_repaired_cell(m0, i, j)
                    } else {
                        m0.cell(i, j)
                    }),
            decreases width - x,
        {
            let mut y: usize = 0;
            while y < height
                invariant
                    self.map.wf(),
                    self.map.same_shape(m0),
                    m0.wf(),
                    self.walker == old(self).walker,
                    self.rnd == old(self).rnd,
                    width == m0.width,
                    height == m0.height,
                    0 <= x < width,
                    0 <= y <= height,
                    forall|i: int, j: int|
                        m0.in_bounds(i, j) ==> #[trigger] self.map.cell(i, j) == (
                        if i < x || (i == x as int && j < y) {
                            spec_repaired_cell(m0, i, j)
                        } else {
                            m0.cell(i, j)
                        }),
                decreases height - y,
            {
                if matches!(self.map.get(x, y), BlockType::Empty) {
                    if has_hookable_neighbor(&self.map, x, y) {
                        proof {
                            assert(spec_has_hookable_neighbor(self.map, x as int, y as int)
                                == spec_has_hookable_neighbor(m0, x as int, y as int));
                        }
                        self.map.set(x, y, BlockType::Freeze);
                    } else {
                        proof {
                            assert(spec_has_hookable_neighbor(self.map, x as int, y as int)
                                == spec_has_hookable_neighbor(m0, x as int, y as int));
                        }
                    }
                }
                y += 1;
            }
            x += 1;
        }
        proof {
            assert forall|x: int, y: int|
                self.map.in_bounds(x, y) && #[trigger] self.map.cell(x, y)
                    == BlockType::Empty implies !spec_has_hookable_neighbor(self.map, x, y) by {
                assert(self.map.cell(x, y) == spec_repaired_cell(m0, x, y));
                assert(spec_has_hookable_neighbor(self.map, x, y) == spec_has_hookable_neighbor(
                    m0,
                    x,
                    y,
                ));
            }
        }
    }
}

/// What carving one room leaves in a cell. Inside the room's square of
/// half-side `margin` around `pos` everything becomes `Empty`, except a
/// short `Hookable` platform through the center row (and, for a `Start`
/// room, a `Spawn` line one cell above it). The 1-cell ring one cell
/// outside the room becomes the zone marker wherever it was still solid.
pub open spec fn spec_room_cell(
    old_cell: BlockType,
    pos: Position,
    margin: int,
    zone: BlockType,
    x: int,
    y: int,
) -> BlockType {
    let px = pos.x as int;
    let py = pos.y as int;
    if crate::map::spec_on_border(px - margin - 1, py - margin - 1, px + margin + 1, py + margin
        + 1, x, y) {
        if crate::map::spec_writable(old_cell, false) {
            zone
        } else {
            old_cell
        }
    } else if zone == BlockType::Start && px - (margin - 2) <= x <= px + (margin - 2) && y == py
        - 1 {
        BlockType::Spawn
    } else if px - (margin - 2) <= x <= px + (margin - 2) && y == py {
        BlockType::Hookable
    } else if crate::map::spec_in_rect(px - margin, py - margin, px + margin, py + margin, x, y) {
        BlockType::Empty
    } else {
        old_cell
    }
}

impl Generator {
    /// Carve one room: an `Empty` square of half-side `margin` around
    /// `pos`, a `Hookable` platform through its center, for a `Start` room
    /// a `Spawn` line one cell above the platform, and the zone marker as a
    /// border ring one cell outside the room. At the high grid edges the
    /// stamps are clipped by the area primitives; a center so close to the
    /// low edges that the room would leave the grid is a caller error,
    /// excluded here and signaled explicitly by [`Self::generate_map`].
    #[verifier::rlimit(100)]
    #[verifier::spinoff_prover]
    pub fn generate_room(&mut self, pos: &Position, margin: usize, zone_type: &BlockType)
        requires
            old(self).wf(),
            2 <= margin <= crate::map::MAX_MAP_SIDE,
            pos.x >= margin + 1,
            pos.y >= margin + 1,
            pos.x < old(self).map.width,
            pos.y < old(self).map.height,
        ensures
            final(self).wf(),
            final(self).map.same_shape(old(self).map),
            final(self).walker == old(self).walker,
            final(self).rnd == old(self).rnd,
            forall|x: int, y: int|
                old(self).map.in_bounds(x, y) ==> #[trigger] final(self).map.cell(x, y)
                    == spec_room_cell(
                    old(self).map.cell(x, y),
                    *pos,
                    margin as int,
                    *zone_type,
                    x,
                    y,
                ),
    {
        let ghost m0 = self.map;
        self.map.set_area(
            &Position::new(pos.x - margin, pos.y - margin),
            &Position::new(pos.x + margin, pos.y + margin),
            &BlockType::Empty,
            true,
        );
        let ghost m1 = self.map;
        self.map.set_area(
            &Position::new(pos.x - (margin - 2), pos.y),
            &Position::new(pos.x + (margin - 2), pos.y),
            &BlockType::Hookable,
            true,
        );
        let ghost m2 = self.map;
        if matches!(*zone_type, BlockType::Start) {
            self.map.set_area(
                &Position::new(pos.x - (margin - 2), pos.y - 1),
                &Position::new(pos.x + (margin - 2), pos.y - 1),
                &BlockType::Spawn,
                true,
            );
        }
        let ghost m3 = self.map;
        self.map.set_area_border(
            &Position::new(pos.x - margin - 1, pos.y - margin - 1),
            &Position::new(pos.x + margin + 1, pos.y + margin + 1),
            zone_type,
            false,
        );
        proof {
            assert forall|x: int, y: int| m0.in_bounds(x, y) implies #[trigger] self.map.cell(
                x,
                y,
            ) == spec_room_cell(m0.cell(x, y), *pos, margin as int, *zone_type, x, y) by {
                assert(m1.in_bounds(x, y) && m2.in_bounds(x, y) && m3.in_bounds(x, y));
                assert(m1.cell(x, y) == (
                    if crate::map::spec_in_rect(
                        pos.x - margin,
                        pos.y - margin,
                        pos.x + margin,
                        pos.y + margin,
                        x,
                        y,
                    ) {
                        BlockType::Empty
                    } else {
                        m0.cell(x, y)
                    }));
                assert(m2.cell(x, y) == (
                    if crate::map::spec_in_rect(
                        pos.x - (margin - 2),
                        pos.y as int,
                        pos.x + (margin - 2),
                        pos.y as int,
                        x,
                        y,
                    ) {
                        BlockType::Hookable
                    } else {
                        m1.cell(x, y)
                    }));
                if matches!(*zone_type, BlockType::Start) {
                    assert(m3.cell(x, y) == (
                        if crate::map::spec_in_rect(
                            pos.x - (margin - 2),
                            pos.y - 1,
                            pos.x + (margin - 2),
                            pos.y - 1,
                            x,
                            y,
                        ) {
                            BlockType::Spawn
                        } else {
                            m2.cell(x, y)
                        }));
                } else {
                    assert(m3 == m2);
                }
                assert(self.map.cell(x, y) == (
                    if crate::map::spec_on_border(
                        pos.x - margin - 1,
                        pos.y - margin - 1,
                        pos.x + margin + 1,
                        pos.y + margin + 1,
                        x,
                        y,
                    ) && crate::map::spec_writable(m3.cell(x, y), false) {
                        *zone_type
                    } else {
                        m3.cell(x, y)
                    }));
            }
        }
    }

    /// Post-processing, run exactly once after stepping completes: repair
    /// every edge bug, then carve the spawn room with its `Start` border at
    /// the spawn cell and the `Finish` room at the walker's final position.
    /// The resulting grid is exactly the repair pass followed by the two
    /// room stamps, cell for cell.
    pub fn post_processing(&mut self)
        requires
            old(self).wf(),
            old(self).map.spawn.x >= ROOM_MARGIN + 1,
            old(self).map.spawn.y >= ROOM_MARGIN + 1,
            old(self).walker.pos.x >= ROOM_MARGIN + 1,
            old(self).walker.pos.y >= ROOM_MARGIN + 1,
        ensures
            final(self).wf(),
            final(self).map.same_shape(old(self).map),
            final(self).walker == old(self).walker,
            final(self).rnd == old(self).rnd,
            forall|x: int, y: int|
                old(self).map.in_bounds(x, y) ==> #[trigger] final(self).map.cell(x, y)
                    == spec_room_cell(
                    spec_room_cell(
                        spec_repaired_cell(old(self).map, x, y),
                        old(self).map.spawn,
                        ROOM_MARGIN as int,
                        BlockType::Start,
                        x,
                        y,
                    ),
                    old(self).walker.pos,
                    ROOM_MARGIN as int,
                    BlockType::Finish,
                    x,
                    y,
                ),
    {
        let ghost s0 = *self;
        self.fix_edge_bugs();
        let ghost s1 = *self;
        let spawn = self.map.spawn;
        self.generate_room(&spawn, ROOM_MARGIN, &BlockType::Start);
        let ghost s2 = *self;
        let wpos = self.walker.pos;
        self.generate_room(&wpos, ROOM_MARGIN, &BlockType::Finish);
        proof {
            assert forall|x: int, y: int| s0.map.in_bounds(x, y) implies #[trigger] self.map.cell(
                x,
                y,
            ) == spec_room_cell(
                spec_room_cell(
                    spec_repaired_cell(s0.map, x, y),
                    s0.map.spawn,
                    ROOM_MARGIN as int,
                    BlockType::Start,
                    x,
                    y,
                ),
                s0.walker.pos,
                ROOM_MARGIN as int,
                BlockType::Finish,
                x,
                y,
            ) by {
                assert(s1.map.cell(x, y) == spec_repaired_cell(s0.map, x, y));
                assert(s2.map.cell(x, y) == spec_room_cell(
                    s1.map.cell(x, y),
                    s1.map.spawn,
                    ROOM_MARGIN as int,
                    BlockType::Start,
                    x,
                    y,
                ));
                assert(self.map.cell(x, y) == spec_room_cell(
                    s2.map.cell(x, y),
                    s2.walker.pos,
                    ROOM_MARGIN as int,
                    BlockType::Finish,
                    x,
                    y,
                ));
            }
        }
    }

    /// Generate an entire map with a single call: drive the step loop up to
    /// `max_steps` times (capped at the engine's step budget) or until the
    /// walker finishes, then run post-processing and hand the grid out. The
    /// profile is validated first and an invalid one is refused with a
    /// `Config` error before any run starts; a spawn or final position so
    /// close to the low grid edges that a room stamp would leave the grid
    /// is refused with an `OutOfBounds` error, never silently clamped.
    pub fn generate_map(
        max_steps: usize,
        seed: u64,
        config: &GenerationConfig,
        map_config: &MapConfig,
    ) -> (r: Result<Grid, GenerationError>)
        ensures
            !config.wf() ==> r matches Err(GenerationError::Config(_)),
            !map_config.wf() ==> r matches Err(GenerationError::Config(_)),
            r matches Err(GenerationError::Config(e)) ==> !config.wf() || !map_config.wf(),
            !spec_validate_ok(*config) ==> r == Result::<Grid, GenerationError>::Err(
                GenerationError::Config(spec_validate_error(*config)),
            ),
            r matches Ok(m) ==> m.wf() && m.width == map_config.width && m.height
                == map_config.height && m.spawn == map_config.waypoints@[0],
            r matches Ok(m) ==> spec_generated_shape(m),
            r is Err ==> (r matches Err(GenerationError::Config(_)) || r matches Err(
                GenerationError::OutOfBounds(_),
            ) || r matches Err(GenerationError::Stuck(_))),
    {
        match config.validate() {
            Err(e) => {
                return Err(GenerationError::Config(e));
            },
            Ok(()) => {},
        }
        if !config.check() {
            return Err(GenerationError::Config(ConfigError::OutOfRange));
        }
        if !map_config.check() {
            return Err(GenerationError::Config(ConfigError::OutOfRange));
        }
        let spawn = map_config.waypoints[0];
        if spawn.x < ROOM_MARGIN + 1 || spawn.y < ROOM_MARGIN + 1 {
            return Err(GenerationError::OutOfBounds(0));
        }
        let budget = if max_steps <= 0xfff_ffff {
            max_steps
        } else {
            0xfff_ffff
        };
        let mut gen = Generator::new(config, map_config, seed);
        let mut i: usize = 0;
        while i < budget
            invariant
                gen.wf(),
                config.wf(),
                map_config.wf(),
                budget <= 0xfff_ffff,
                0 <= i <= budget,
                gen.walker.steps <= i,
                gen.map.width == map_config.width,
                gen.map.height == map_config.height,
                gen.map.spawn == map_config.waypoints@[0],
                gen.map.spawn.x >= ROOM_MARGIN + 1,
                gen.map.spawn.y >= ROOM_MARGIN + 1,
            decreases budget - i,
        {
            if gen.walker.finished {
                break;
            }
            match gen.step(config) {
                Ok(()) => {},
                Err(e) => {
                    return Err(e);
                },
            }
            i += 1;
        }
        if gen.walker.pos.x < ROOM_MARGIN + 1 || gen.walker.pos.y < ROOM_MARGIN + 1 {
            return Err(GenerationError::OutOfBounds(gen.walker.steps));
        }
        let ghost pre = gen.map;
        let ghost fin = gen.walker.pos;
        gen.post_processing();
        proof {
            assert(pre.wf() && pre.width == gen.map.width && pre.height == gen.map.height
                && pre.spawn == gen.map.spawn);
            assert(fin.x >= ROOM_MARGIN + 1 && fin.y >= ROOM_MARGIN + 1 && fin.x < gen.map.width
                && fin.y < gen.map.height);
            assert(spec_post_processed(pre, fin, gen.map));
            assert(spec_generated_shape(gen.map));
        }
        Ok(gen.map)
    }
}

/// A copy of a waypoint vector, element for element.
fn clone_positions(w: &Vec<Position>) -> (r: Vec<Position>)
    ensures
        r@ == w@,
{
    let mut r: Vec<Position> = Vec::new();
    let mut i: usize = 0;
    while i < w.len()
        invariant
            0 <= i <= w@.len(),
            r@ == w@.subrange(0, i as int),
        decreases w@.len() - i,
    {
        r.push(w[i]);
        proof {
            assert(r@ =~= w@.subrange(0, i + 1));
        }
        i += 1;
    }
    proof {
        assert(r@ =~= w@);
    }
    r
}

} // verus!
