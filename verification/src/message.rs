use vstd::prelude::*;

verus! {

/// Bit pattern of the real number zero (positive zero).
pub const ZERO: u64 = 0;

/// A point in time as the middleware writes it: whole seconds and the
/// nanoseconds within the second.
#[derive(Clone, Copy, Debug, PartialEq, Eq, Structural)]
pub struct Stamp {
    pub sec: i32,
    pub nanosec: u32,
}

/// A position in space, each coordinate a binary64 bit pattern.
#[derive(Clone, Copy, Debug, PartialEq, Eq, Structural)]
pub struct Point {
    pub x: u64,
    pub y: u64,
    pub z: u64,
}

/// An orientation as a quaternion, each component a binary64 bit pattern.
#[derive(Clone, Copy, Debug, PartialEq, Eq, Structural)]
pub struct Quaternion {
    pub x: u64,
    pub y: u64,
    pub z: u64,
    pub w: u64,
}

/// The goal message of the pose-navigation action: a stamped pose in a
/// named frame.
#[derive(Clone, Debug, PartialEq, Eq)]
pub struct NavigationGoal {
    pub frame_id: String,
    pub stamp: Stamp,
    pub position: Point,
    pub orientation: Quaternion,
}

/// The model of a goal message: the frame's name as a sequence of
/// characters, the rest as it is.
pub struct GoalView {
    pub frame_id: Seq<char>,
    pub stamp: Stamp,
    pub position: Point,
    pub orientation: Quaternion,
}

impl View for NavigationGoal {
    type V = GoalView;

    open spec fn view(&self) -> GoalView {
        GoalView {
            frame_id: self.frame_id@,
            stamp: self.stamp,
            position: self.position,
            orientation: self.orientation,
        }
    }
}

} // verus!
