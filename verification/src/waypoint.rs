use vstd::prelude::*;

verus! {

/// A target on the map plane: a position and a heading.
///
/// Each field is the binary64 bit pattern of the real number it stands for;
/// `yaw` is in radians. Any bit pattern is accepted: no range is enforced.
#[derive(Clone, Copy, Debug, PartialEq, Eq, Structural)]
pub struct Waypoint {
    pub x: u64,
    pub y: u64,
    pub yaw: u64,
}

/// The planar rotation that belongs to a heading: the `w` and `z` components
/// of a unit quaternion whose `x` and `y` components are zero, as bit
/// patterns. Deriving it from a yaw angle takes trigonometry and is the
/// caller's part.
#[derive(Clone, Copy, Debug, PartialEq, Eq, Structural)]
pub struct PlanarRotation {
    pub w: u64,
    pub z: u64,
}

impl Waypoint {
    /// A waypoint from the bit patterns of its three coordinates.
    pub fn new(x: u64, y: u64, yaw: u64) -> (waypoint: Waypoint)
        ensures
            waypoint == (Waypoint { x, y, yaw }),
    {
        Waypoint { x, y, yaw }
    }

    pub fn get_x(&self) -> (x: u64)
        ensures
            x == self.x,
    {
        self.x
    }

    pub fn get_y(&self) -> (y: u64)
        ensures
            y == self.y,
    {
        self.y
    }

    pub fn get_yaw(&self) -> (yaw: u64)
        ensures
            yaw == self.yaw,
    {
        self.yaw
    }
}

} // verus!
