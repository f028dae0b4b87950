//! Camera movement directions.

use vstd::prelude::*;

verus! {

/// A direction in which the keyboard moves the camera.
#[derive(Clone, Copy, PartialEq, Eq, Structural, Debug)]
pub enum CameraMovement {
    Forward,
    Backward,
    Left,
    Right,
    Up,
    Down,
}

/// The camera vector a movement follows.
#[derive(Clone, Copy, PartialEq, Eq, Structural, Debug)]
pub enum MovementAxis {
    /// The view direction, flattened onto the horizontal plane.
    Front,
    /// The camera's right vector, flattened onto the horizontal plane.
    Right,
    /// The world's up vector.
    WorldUp,
}

impl CameraMovement {
    /// The axis the movement follows and whether it goes along it (`true`)
    /// or against it: forward/backward along the front vector, right/left
    /// along the right vector, up/down along the world up vector.
    pub fn direction(self) -> (dir: (MovementAxis, bool))
        ensures
            dir == (match self {
                CameraMovement::Forward => (MovementAxis::Front, true),
                CameraMovement::Backward => (MovementAxis::Front, false),
                CameraMovement::Left => (MovementAxis::Right, false),
                CameraMovement::Right => (MovementAxis::Right, true),
                CameraMovement::Up => (MovementAxis::WorldUp, true),
                CameraMovement::Down => (MovementAxis::WorldUp, false),
            }),
    {
        match self {
            CameraMovement::Forward => (MovementAxis::Front, true),
            CameraMovement::Backward => (MovementAxis::Front, false),
            CameraMovement::Left => (MovementAxis::Right, false),
            CameraMovement::Right => (MovementAxis::Right, true),
            CameraMovement::Up => (MovementAxis::WorldUp, true),
            CameraMovement::Down => (MovementAxis::WorldUp, false),
        }
    }
}

} // verus!
