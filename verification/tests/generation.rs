use gores_mapgen::BlockType;
use gores_mapgen::ConfigError;
use gores_mapgen::CuteWalker;
use gores_mapgen::GenerationConfig;
use gores_mapgen::GenerationError;
use gores_mapgen::Generator;
use gores_mapgen::Grid;
use gores_mapgen::Kernel;
use gores_mapgen::MapConfig;
use gores_mapgen::Position;
use gores_mapgen::Random;
use gores_mapgen::RandomDistConfig;
use gores_mapgen::SkipTracker;

fn straight_course_config() -> GenerationConfig {
    let mut config = GenerationConfig::default();
    // strong pull toward the best-ranked direction, no skips
    config.shift_weights = vec![1000, 1, 1, 1];
    config.momentum_prob = 0;
    config.waypoint_reached_dist = 10;
    config.max_level_skip = 0;
    config
}

fn two_waypoint_map() -> MapConfig {
    MapConfig {
        name: String::from("two_waypoints"),
        waypoints: vec![Position::new(50, 250), Position::new(250, 250)],
        width: 300,
        height: 300,
    }
}

fn grid_cells(map: &Grid) -> Vec<Vec<BlockType>> {
    let mut rows = Vec::new();
    for x in 0..map.width {
        let mut col = Vec::new();
        for y in 0..map.height {
            col.push(map.get(x, y));
        }
        rows.push(col);
    }
    rows
}

#[test]
fn determinism_repeated_generation() {
    let config = straight_course_config();
    let map_config = two_waypoint_map();
    let a = Generator::generate_map(2000, 42, &config, &map_config).expect("run a");
    let b = Generator::generate_map(2000, 42, &config, &map_config).expect("run b");
    assert_eq!(grid_cells(&a), grid_cells(&b));
}

#[test]
fn different_seeds_may_differ_but_are_each_stable() {
    let config = straight_course_config();
    let map_config = two_waypoint_map();
    let a = Generator::generate_map(2000, 7, &config, &map_config).expect("run a");
    let b = Generator::generate_map(2000, 7, &config, &map_config).expect("run b");
    assert_eq!(grid_cells(&a), grid_cells(&b));
}

#[test]
fn connectivity_single_empty_region() {
    let config = straight_course_config();
    let map_config = two_waypoint_map();
    let map = Generator::generate_map(5000, 42, &config, &map_config).expect("generation");

    // collect every walkable cell; Spawn cells count as part of the carved room
    let walkable = |b: BlockType| matches!(b, BlockType::Empty | BlockType::Spawn);
    let mut seed_cell = None;
    let mut total = 0usize;
    for x in 0..map.width {
        for y in 0..map.height {
            if walkable(map.get(x, y)) {
                total += 1;
                if seed_cell.is_none() {
                    seed_cell = Some((x, y));
                }
            }
        }
    }
    assert!(total > 0, "no walkable cells were carved");

    // flood fill (4-neighborhood) from one walkable cell
    let mut seen = vec![vec![false; map.height]; map.width];
    let mut stack = vec![seed_cell.unwrap()];
    let mut reached = 0usize;
    while let Some((x, y)) = stack.pop() {
        if seen[x][y] || !walkable(map.get(x, y)) {
            continue;
        }
        seen[x][y] = true;
        reached += 1;
        if x > 0 {
            stack.push((x - 1, y));
        }
        if y > 0 {
            stack.push((x, y - 1));
        }
        if x + 1 < map.width {
            stack.push((x + 1, y));
        }
        if y + 1 < map.height {
            stack.push((x, y + 1));
        }
    }
    assert_eq!(reached, total, "the Empty region is not a single connected component");

    // the region must touch the Spawn line and the Finish border
    let mut touches_spawn = false;
    let mut touches_finish = false;
    for x in 0..map.width {
        for y in 0..map.height {
            if !seen[x][y] {
                continue;
            }
            if matches!(map.get(x, y), BlockType::Spawn) {
                touches_spawn = true;
            }
            for (dx, dy) in [(-1i64, 0i64), (1, 0), (0, -1), (0, 1)] {
                let nx = x as i64 + dx;
                let ny = y as i64 + dy;
                if nx >= 0 && ny >= 0 && (nx as usize) < map.width && (ny as usize) < map.height {
                    if matches!(map.get(nx as usize, ny as usize), BlockType::Finish) {
                        touches_finish = true;
                    }
                }
            }
        }
    }
    assert!(touches_spawn, "the carved region does not contain the Spawn line");
    assert!(touches_finish, "the carved region does not reach the Finish border");
}

#[test]
fn buffer_invariant_after_edge_bug_repair() {
    let config = straight_course_config();
    let map_config = two_waypoint_map();
    let mut gen = Generator::new(&config, &map_config, 42);
    for _ in 0..2000 {
        if gen.walker.finished {
            break;
        }
        gen.step(&config).expect("step");
    }
    gen.fix_edge_bugs();
    // no Empty cell may be 8-adjacent to a Hookable cell
    for x in 0..gen.map.width {
        for y in 0..gen.map.height {
            if !matches!(gen.map.get(x, y), BlockType::Empty) {
                continue;
            }
            for dx in -1i64..=1 {
                for dy in -1i64..=1 {
                    if dx == 0 && dy == 0 {
                        continue;
                    }
                    let nx = x as i64 + dx;
                    let ny = y as i64 + dy;
                    if nx >= 0
                        && ny >= 0
                        && (nx as usize) < gen.map.width
                        && (ny as usize) < gen.map.height
                    {
                        assert!(
                            !matches!(gen.map.get(nx as usize, ny as usize), BlockType::Hookable),
                            "edge bug left at ({x}, {y})"
                        );
                    }
                }
            }
        }
    }
}

#[test]
fn seed_42_two_waypoint_profile_finishes_early() {
    let config = straight_course_config();
    let map_config = two_waypoint_map();
    let mut gen = Generator::new(&config, &map_config, 42);
    let mut used = 0usize;
    for _ in 0..500 {
        if gen.walker.finished {
            break;
        }
        gen.step(&config).expect("step");
        used += 1;
    }
    assert!(gen.walker.finished, "walker did not finish within the step budget");
    assert!(used < 500, "walker used the whole step budget");
    let last_pos = gen.walker.pos;
    gen.post_processing();
    assert_eq!(gen.map.spawn, Position::new(50, 250));

    // every Finish cell lies on the border ring one cell outside the room
    // carved around the walker's last position, and at least one exists
    let margin = 4i64;
    let (cx, cy) = (last_pos.x as i64, last_pos.y as i64);
    let on_ring = |x: i64, y: i64| {
        x >= cx - margin - 1
            && x <= cx + margin + 1
            && y >= cy - margin - 1
            && y <= cy + margin + 1
            && (x == cx - margin - 1 || x == cx + margin + 1 || y == cy - margin - 1
                || y == cy + margin + 1)
    };
    let mut finish_count = 0usize;
    for x in 0..gen.map.width {
        for y in 0..gen.map.height {
            if matches!(gen.map.get(x, y), BlockType::Finish) {
                finish_count += 1;
                assert!(on_ring(x as i64, y as i64), "Finish cell off the ring at ({x}, {y})");
            }
        }
    }
    assert!(finish_count > 0, "no Finish border was stamped");
}

#[test]
fn rejects_zero_inner_kernel_size() {
    let mut config = GenerationConfig::default();
    config.inner_size_probs = RandomDistConfig::new(vec![3usize, 0usize], vec![1, 1]);
    assert_eq!(config.validate(), Err(ConfigError::ZeroInnerSize));
    let map_config = two_waypoint_map();
    let r = Generator::generate_map(100, 42, &config, &map_config);
    assert!(matches!(r, Err(GenerationError::Config(ConfigError::ZeroInnerSize))));
}

#[test]
fn rejects_zero_fade_bounds() {
    let mut config = GenerationConfig::default();
    config.fade_min_size = 0;
    assert_eq!(config.validate(), Err(ConfigError::ZeroFadeSize));
    let mut config2 = GenerationConfig::default();
    config2.fade_max_size = 0;
    assert_eq!(config2.validate(), Err(ConfigError::ZeroFadeSize));
}

#[test]
fn rejects_zero_subwaypoint_distance() {
    let mut config = GenerationConfig::default();
    config.max_subwaypoint_dist = 0;
    assert_eq!(config.validate(), Err(ConfigError::ZeroSubwaypointDist));
    assert!(GenerationConfig::default().validate().is_ok());
}

#[test]
fn zero_weight_distribution_is_a_config_error() {
    let mut rnd = Random::new(9);
    assert_eq!(rnd.sample_index(&vec![0u64, 0u64]), Err(ConfigError::ZeroWeightSum));
    assert_eq!(rnd.sample_index(&Vec::new()), Err(ConfigError::ZeroWeightSum));
    assert!(rnd.sample_index(&vec![0u64, 5u64]).is_ok());
}

#[test]
fn momentum_one_forces_straight_corridor() {
    let mut config = GenerationConfig::default();
    config.momentum_prob = 10000;
    config.waypoint_reached_dist = 5;
    config.max_level_skip = 0;
    // all weight on the best rank, so the first draw heads for the goal;
    // momentum keeps that direction from then on
    config.shift_weights = vec![1, 0, 0, 0];
    let map_config = MapConfig {
        name: String::from("straight"),
        waypoints: vec![Position::new(150, 150), Position::new(250, 150)],
        width: 300,
        height: 300,
    };
    let mut gen = Generator::new(&config, &map_config, 3);
    let mut positions = vec![gen.walker.pos];
    for _ in 0..400 {
        if gen.walker.finished {
            break;
        }
        gen.step(&config).expect("step");
        positions.push(gen.walker.pos);
    }
    assert!(positions.len() > 3, "walker took too few steps");
    let dx0 = positions[1].x as i64 - positions[0].x as i64;
    let dy0 = positions[1].y as i64 - positions[0].y as i64;
    for w in positions.windows(2).skip(1) {
        let dx = w[1].x as i64 - w[0].x as i64;
        let dy = w[1].y as i64 - w[0].y as i64;
        if dx == 0 && dy == 0 {
            continue; // a finished-walker tick does not move
        }
        assert_eq!((dx, dy), (dx0, dy0), "momentum 1.0 must repeat the first direction");
    }
}

#[test]
fn out_of_range_parameters_are_refused() {
    let mut config = GenerationConfig::default();
    config.shift_weights = vec![1, 1, 1]; // must weigh all four ranks
    let map_config = two_waypoint_map();
    let r = Generator::generate_map(100, 42, &config, &map_config);
    assert!(matches!(r, Err(GenerationError::Config(ConfigError::OutOfRange))));
    // a spawn so close to the low grid edges that the spawn room's stamp
    // would leave the grid is refused explicitly, never clamped
    let tiny = MapConfig {
        name: String::from("tiny"),
        waypoints: vec![Position::new(2, 2)],
        width: 8,
        height: 8,
    };
    let r2 = Generator::generate_map(100, 42, &GenerationConfig::default(), &tiny);
    assert!(matches!(r2, Err(GenerationError::OutOfBounds(0))));
}

#[test]
fn momentum_overshoot_hits_the_grid_edge() {
    // momentum one never re-aims, so after the first waypoint the walker
    // keeps its old direction and runs off the top edge
    let mut config = GenerationConfig::default();
    config.momentum_prob = 10000;
    config.waypoint_reached_dist = 5;
    config.max_level_skip = 0;
    config.shift_weights = vec![1, 0, 0, 0];
    let map_config = MapConfig {
        name: String::from("overshoot"),
        waypoints: vec![
            Position::new(150, 150),
            Position::new(150, 100),
            Position::new(10, 290),
        ],
        width: 300,
        height: 300,
    };
    let mut gen = Generator::new(&config, &map_config, 11);
    let mut result = Ok(());
    for _ in 0..1000 {
        if gen.walker.finished {
            break;
        }
        result = gen.step(&config);
        if result.is_err() {
            break;
        }
    }
    assert!(matches!(result, Err(GenerationError::OutOfBounds(_))));
}

#[test]
fn lagging_progress_is_reported_as_stuck() {
    // an impossibly large lock distance means no step ever counts as
    // progress, so the tiny delay budget runs out almost immediately
    let mut config = straight_course_config();
    config.pos_lock_max_dist = 65536;
    config.pos_lock_max_delay = 3;
    let map_config = two_waypoint_map();
    let mut gen = Generator::new(&config, &map_config, 42);
    let mut result = Ok(());
    for _ in 0..100 {
        if gen.walker.finished {
            break;
        }
        result = gen.step(&config);
        if result.is_err() {
            break;
        }
    }
    assert!(matches!(result, Err(GenerationError::Stuck(_))));
}

#[test]
fn fade_interpolates_kernel_size_linearly() {
    // fade_max 6, fade_min 3, fade_steps 60: size 6 at step 0, one less
    // every 20 steps, back to the base radius once fading ends
    let config = GenerationConfig::default();
    let inner = Kernel::new(5, 0);
    assert_eq!(gores_mapgen::walker::effective_inner_kernel(&config, 0, false, &inner).radius, 6);
    assert_eq!(gores_mapgen::walker::effective_inner_kernel(&config, 19, false, &inner).radius, 6);
    assert_eq!(gores_mapgen::walker::effective_inner_kernel(&config, 20, false, &inner).radius, 5);
    assert_eq!(gores_mapgen::walker::effective_inner_kernel(&config, 40, false, &inner).radius, 4);
    assert_eq!(gores_mapgen::walker::effective_inner_kernel(&config, 59, false, &inner).radius, 4);
    assert_eq!(gores_mapgen::walker::effective_inner_kernel(&config, 60, false, &inner).radius, 5);
}

#[test]
fn kernel_membership_exact_values() {
    let disc = Kernel::new(2, 0);
    assert!(disc.contains_abs(0, 0));
    assert!(disc.contains_abs(2, 0));
    assert!(disc.contains_abs(1, 1));
    assert!(!disc.contains_abs(2, 1)); // 5 > 4
    assert!(!disc.contains_abs(2, 2)); // 8 > 4
    assert!(!disc.contains_abs(3, 0));
    let square = Kernel::new(2, 100);
    assert!(square.contains_abs(2, 2)); // 8 <= 8
    assert!(!square.contains_abs(3, 0));
    let half = Kernel::new(2, 50); // limit 4 + 2 = 6
    assert!(half.contains_abs(2, 1)); // 5 <= 6
    assert!(!half.contains_abs(2, 2)); // 8 > 6
}

#[test]
fn set_area_respects_overwrite_policy() {
    let mut map = Grid::new(10, 10, BlockType::Hookable, Position::new(1, 1));
    map.set(4, 4, BlockType::Empty);
    map.set_area(
        &Position::new(3, 3),
        &Position::new(5, 5),
        &BlockType::Freeze,
        false,
    );
    // the Empty cell is not Hookable, so the non-overwriting fill spares it
    assert_eq!(map.get(4, 4), BlockType::Empty);
    assert_eq!(map.get(3, 3), BlockType::Freeze);
    assert_eq!(map.get(5, 5), BlockType::Freeze);
    assert_eq!(map.get(6, 6), BlockType::Hookable);
}

#[test]
fn set_area_clamps_and_ignores_outside_rectangles() {
    let mut map = Grid::new(8, 8, BlockType::Hookable, Position::new(1, 1));
    map.set_area(
        &Position::new(6, 6),
        &Position::new(20, 20),
        &BlockType::Empty,
        true,
    );
    assert_eq!(map.get(7, 7), BlockType::Empty);
    assert_eq!(map.get(5, 5), BlockType::Hookable);
    let mut map2 = Grid::new(8, 8, BlockType::Hookable, Position::new(1, 1));
    map2.set_area(
        &Position::new(9, 9),
        &Position::new(20, 20),
        &BlockType::Empty,
        true,
    );
    for x in 0..8 {
        for y in 0..8 {
            assert_eq!(map2.get(x, y), BlockType::Hookable);
        }
    }
}

#[test]
fn set_area_border_fills_only_the_ring() {
    let mut map = Grid::new(10, 10, BlockType::Hookable, Position::new(1, 1));
    map.set_area_border(
        &Position::new(2, 2),
        &Position::new(6, 6),
        &BlockType::Start,
        false,
    );
    assert_eq!(map.get(2, 2), BlockType::Start);
    assert_eq!(map.get(2, 6), BlockType::Start);
    assert_eq!(map.get(4, 2), BlockType::Start);
    assert_eq!(map.get(4, 4), BlockType::Hookable); // interior untouched
    assert_eq!(map.get(7, 7), BlockType::Hookable); // outside untouched
}

#[test]
fn skip_tracker_enforces_all_three_rules() {
    let mut t = SkipTracker::new(3, 11, 45, 20);
    // too short, too long
    assert!(!t.try_accept(Position::new(10, 10), 2));
    assert!(!t.try_accept(Position::new(10, 10), 12));
    // fine
    assert!(t.try_accept(Position::new(10, 10), 5));
    // too close to the accepted one: 6*6 + 0 = 36 < 45
    assert!(!t.try_accept(Position::new(16, 10), 5));
    // far enough: 7*7 = 49 >= 45
    assert!(t.try_accept(Position::new(17, 10), 5));
    // would exceed the budget of 20: 5 + 5 + 11 = 21
    assert!(!t.try_accept(Position::new(100, 100), 11));
    // still within it
    assert!(t.try_accept(Position::new(100, 100), 10));
    assert_eq!(t.total_skipped, 20);
}

#[test]
fn with_probability_edge_cases() {
    let mut rnd = Random::new(123);
    for _ in 0..100 {
        assert!(rnd.with_probability(10000));
        assert!(!rnd.with_probability(0));
    }
}

#[test]
fn random_same_seed_same_sequence() {
    let mut a = Random::new(99);
    let mut b = Random::new(99);
    for _ in 0..50 {
        assert_eq!(a.next_u64(), b.next_u64());
    }
    let mut c = Random::new(100);
    let mut any_diff = false;
    let mut a2 = Random::new(99);
    for _ in 0..50 {
        if a2.next_u64() != c.next_u64() {
            any_diff = true;
        }
    }
    assert!(any_diff, "different seeds produced identical draws");
}

#[test]
fn fix_edge_bugs_repairs_a_crafted_grid() {
    let config = GenerationConfig::default();
    let mut map = Grid::new(7, 7, BlockType::Hookable, Position::new(1, 1));
    for x in 2..5 {
        for y in 2..5 {
            map.set(x, y, BlockType::Empty);
        }
    }
    let walker = CuteWalker::new(
        Position::new(1, 1),
        Kernel::new(3, 0),
        Kernel::new(5, 10),
        vec![Position::new(1, 1)],
        &config,
    );
    let mut gen = Generator { walker, map, rnd: Random::new(1) };
    gen.fix_edge_bugs();
    // the ring of the 3x3 Empty block touches Hookable cells and turns
    // Freeze; the center cell's neighbors are all Empty, so it stays Empty
    for x in 2..5 {
        for y in 2..5 {
            if x == 3 && y == 3 {
                assert_eq!(gen.map.get(x, y), BlockType::Empty);
            } else {
                assert_eq!(gen.map.get(x, y), BlockType::Freeze);
            }
        }
    }
    assert_eq!(gen.map.get(1, 1), BlockType::Hookable);
}

#[test]
fn generator_new_matches_skeleton() {
    let config = GenerationConfig::default();
    let map_config = MapConfig::default();
    let gen = Generator::new(&config, &map_config, 77);
    assert_eq!(gen.map.width, 300);
    assert_eq!(gen.map.height, 300);
    assert_eq!(gen.map.spawn, Position::new(50, 250));
    assert_eq!(gen.walker.pos, Position::new(50, 250));
    assert!(!gen.walker.finished);
    for x in [0usize, 150, 299] {
        for y in [0usize, 150, 299] {
            assert_eq!(gen.map.get(x, y), BlockType::Hookable);
        }
    }
}

#[test]
fn step_is_a_no_op_once_finished() {
    let mut config = GenerationConfig::default();
    config.waypoint_reached_dist = 500; // every waypoint is instantly reached
    let map_config = two_waypoint_map();
    let mut gen = Generator::new(&config, &map_config, 5);
    for _ in 0..10 {
        gen.step(&config).expect("step");
    }
    assert!(gen.walker.finished);
    let pos = gen.walker.pos;
    let steps = gen.walker.steps;
    gen.step(&config).expect("step");
    assert_eq!(gen.walker.pos, pos);
    assert_eq!(gen.walker.steps, steps);
}

#[test]
fn position_distance_helpers() {
    let a = Position::new(3, 4);
    let b = Position::new(0, 0);
    assert_eq!(a.dist_sqr(&b), 25);
    assert_eq!(b.dist_sqr(&a), 25);
    assert_eq!(a.chebyshev_dist(&b), 4);
    assert_eq!(a.dist_sqr(&a), 0);
}
