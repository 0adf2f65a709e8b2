//! The player as it stands before the first frame.

use vstd::prelude::*;

verus! {

/// The state a player starts a session with, in whole units.
///
/// Every starting value is a whole number, so it is held as one; the engine's
/// side turns each into its own number type when it spawns the player.
#[derive(Clone, Copy, Debug, PartialEq, Eq, Structural)]
pub struct PlayerStart {
    /// Horizontal position, in world units.
    pub x: i32,
    /// Vertical position, in world units.
    pub y: i32,
    /// Facing angle, in radians, counter-clockwise from the positive x axis.
    pub rotation: i32,
    /// Greatest speed, in world units per second; constant for the session.
    pub max_speed: u32,
}

/// The start of every session: the player at the origin, facing along the
/// positive x axis, with a greatest speed of 150 units per second.
pub fn player_start() -> (start: PlayerStart)
    ensures
        start.x == 0,
        start.y == 0,
        start.rotation == 0,
        start.max_speed == 150,
{
    PlayerStart { x: 0, y: 0, rotation: 0, max_speed: 150 }
}

} // verus!
