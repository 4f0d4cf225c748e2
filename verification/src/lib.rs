//! Procedural generation engine for 2D tile-grid platformer levels.
//!
//! A seeded pseudo-random walk carves terrain into a grid of typed cells,
//! guided by a sequence of waypoints and a tunable generation profile.
use vstd::prelude::*;

pub mod config;
pub mod generator;
pub mod kernel;
pub mod map;
pub mod position;
pub mod random;
pub mod walker;

pub use config::GenerationConfig;
pub use config::MapConfig;
pub use generator::Generator;
pub use kernel::Kernel;
pub use map::BlockType;
pub use map::Grid;
pub use position::Position;
pub use position::ShiftDirection;
pub use random::Random;
pub use random::RandomDistConfig;
pub use walker::CuteWalker;
pub use walker::Skip;
pub use walker::SkipTracker;

verus! {

/// Ways a generation profile can fail validation before a run starts.
#[derive(Clone, Copy, Debug, PartialEq, Eq, Structural)]
pub enum ConfigError {
    /// A discrete inner-kernel size distribution contains a zero size.
    ZeroInnerSize,
    /// A fade bound (max or min kernel size) is zero.
    ZeroFadeSize,
    /// The maximum subwaypoint distance is not positive.
    ZeroSubwaypointDist,
    /// A weighted distribution whose weights are empty or sum to zero.
    ZeroWeightSum,
    /// A parameter lies outside the engine's caps (kernel sizes, table
    /// lengths, grid dimensions).
    OutOfRange,
}

/// Fatal conditions a generation run can end in. A rejected skip is not
/// here: it is recovered locally and never fails the run.
#[derive(Clone, Copy, Debug, PartialEq, Eq, Structural)]
pub enum GenerationError {
    /// The profile failed validation; no run was started.
    Config(ConfigError),
    /// A step would move the walker outside the grid, at the given step index.
    OutOfBounds(usize),
    /// The walker made no progress toward its goal for longer than the
    /// configured lock delay, detected at the given step index.
    Stuck(usize),
}

} // verus!
