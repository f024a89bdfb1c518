//! Units and tuning constants of the simulation.
//!
//! Time is counted in milliseconds, lengths in nanopixels and speeds in
//! micropixels per second, so that `speed * dt` is a length and
//! `acceleration * dt` is a speed without any rounding. An acceleration is a
//! scalar rate (pixels per second squared) times a direction component scaled
//! by [`crate::trig::DIR_ONE`].
use vstd::prelude::*;

verus! {

/// Length units in one pixel.
pub const PIXEL: i64 = 1_000_000_000;

/// Speed units in one pixel per second.
pub const PIXEL_PER_SECOND: i64 = 1_000_000;

/// The longest frame that one tick may advance, in milliseconds.
pub const MAX_DT: u32 = 1000;

/// Largest magnitude of a stored coordinate.
pub const COORD_LIMIT: i64 = 0x4000_0000_0000_0000;

/// Per-axis speed cap of the player ship.
pub const MAX_SPEED: i64 = 100 * PIXEL_PER_SECOND;

/// Thrust of the player ship, in pixels per second squared.
pub const ACCELERATION: i64 = 75;

/// Thrust of a projectile, in pixels per second squared.
pub const ROCKET_SPEED: i64 = 200;

/// Largest magnitude of a stored velocity component. It is a limit of the
/// representation, not of the game: one tick's displacement at this speed
/// still fits in an `i64` beside any coordinate.
pub const SPEED_LIMIT: i64 = 4_000_000_000_000_000;

/// Turn rate of the player ship: 1.4 radians per second, in binary angle
/// units per millisecond.
pub const TURN_RATE: u32 = 956_991;

/// Heading of a new player ship: 1.34 radians as a binary angle.
pub const INITIAL_ANGLE: u32 = 915_977_469;

/// Bounding size of the player ship, used by the screen wrap.
pub const PLAYER_SIZE: i64 = 10 * PIXEL;

/// Bounding size of a projectile, used by the expiry test.
pub const ROCKET_SIZE: i64 = 5 * PIXEL;

} // verus!
