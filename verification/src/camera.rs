//! The vocabulary of the fly camera.
//!
//! The camera's transform arithmetic is floating-point matrix work and lives
//! with the renderer; the types it is steered by are declared here so the
//! render loop's key handling and the camera agree on them.

use vstd::prelude::*;

verus! {

/// How the camera composes rotation and translation.
#[derive(Clone, Copy, Debug)]
pub enum CameraType {
    FirstPerson,
    LookAt,
}

/// A movement or rotation direction, as steered from the keyboard.
pub enum Direction {
    Up,
    Down,
    Left,
    Right,
    Front,
    Back,
}

} // verus!
