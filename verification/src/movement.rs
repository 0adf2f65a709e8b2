//! One frame of player movement: from what was measured to what is to change.

use vstd::prelude::*;

verus! {

/// What the movement rule needs to know of one frame.
///
/// The rule never looks at the measured quantities themselves, only at these
/// four facts about them.
#[derive(Clone, Copy, Debug, PartialEq, Eq, Structural)]
pub struct Frame {
    /// The move action is held this frame.
    pub active: bool,
    /// The stick's axis is not the zero vector.
    pub axis_nonzero: bool,
    /// Time has passed since the previous frame: the elapsed time is greater
    /// than zero.
    pub time_positive: bool,
    /// The axis scaled by the player's speed and the elapsed time has a
    /// length greater than zero.
    pub length_positive: bool,
}

/// What the caller is to do to the player this frame.
#[derive(Clone, Copy, Debug, PartialEq, Eq, Structural)]
pub struct Motion {
    /// Advance the position along the axis, by the player's speed times the
    /// elapsed time, however far the stick is pushed.
    pub displace: bool,
    /// Set the rotation to the angle of the axis.
    pub rotate: bool,
}

impl Frame {
    /// A displacement is decided: the action is held, the stick is off
    /// centre, time has passed, and there is a distance to go.
    pub open spec fn displaces(self) -> bool {
        self.active && self.axis_nonzero && self.time_positive && self.length_positive
    }

    /// A rotation is decided: the action is held and the stick is off centre.
    pub open spec fn rotates(self) -> bool {
        self.active && self.axis_nonzero
    }
}

/// Decides what the caller is to do to the player for a frame.
pub fn movement_update(frame: Frame) -> (motion: Motion)
    ensures
        motion.displace == frame.displaces(),
        motion.rotate == frame.rotates(),
{
    let rotate = frame.active && frame.axis_nonzero;
    Motion { displace: rotate && frame.time_positive && frame.length_positive, rotate }
}

/// While the move action is not held, neither a displacement nor a rotation
/// is decided, whatever the stick and the clock report.
pub proof fn inactive_frame_decides_nothing(frame: Frame)
    requires
        !frame.active,
    ensures
        !frame.displaces(),
        !frame.rotates(),
{
}

/// With the stick at its centre and the move action held, neither a rotation
/// nor a displacement is decided: no direction, no step.
pub proof fn centred_axis_decides_nothing(frame: Frame)
    requires
        frame.active,
        !frame.axis_nonzero,
    ensures
        !frame.rotates(),
        !frame.displaces(),
{
}

/// When no time has passed, no displacement is decided, wherever the stick
/// points and whatever length was measured.
pub proof fn no_elapsed_time_decides_no_displacement(frame: Frame)
    requires
        !frame.time_positive,
    ensures
        !frame.displaces(),
{
}

/// Where there is no distance to go, no displacement is decided, so the
/// caller never divides by a zero length.
pub proof fn zero_length_decides_no_displacement(frame: Frame)
    requires
        !frame.length_positive,
    ensures
        !frame.displaces(),
{
}

/// A displacement is never decided without a rotation: a player told to move
/// is told to face the way it moves.
pub proof fn displacement_implies_rotation(frame: Frame)
    requires
        frame.displaces(),
    ensures
        frame.rotates(),
{
}

} // verus!
