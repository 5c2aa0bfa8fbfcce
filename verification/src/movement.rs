//! The move controller's two direction policies, and how far a direction
//! carries the camera in one tick.

use crate::fixed::lemma_product_bound;
use crate::fixed::lemma_trunc_div_bound;
use crate::fixed::trunc_div;
use crate::fixed::SCALE;
use crate::keys::HeldKeys;
use vstd::prelude::*;

verus! {

/// Speed in world-axis mode, in units per second.
pub const WORLD_AXIS_SPEED: i64 = 2_000_000;

/// Speed in camera-relative mode, in units per second.
pub const CAMERA_SPEED: i64 = 5_000_000;

/// The horizontal components of the camera's local Z axis, which points
/// backward out of the view. The vertical component plays no part in motion.
#[derive(Clone, Copy, Debug, PartialEq, Eq)]
pub struct LocalZ {
    pub x: i64,
    pub z: i64,
}

/// How the held keys are turned into a direction.
#[derive(Clone, Copy, Debug, PartialEq, Eq)]
pub enum MoveMode {
    /// Keys move the camera along the world's X and Z axes, wherever it
    /// faces. The camera neither jumps nor falls.
    WorldAxis,
    /// Keys move the camera relative to where it faces, and the vertical
    /// integrator is at work.
    CameraRelative(LocalZ),
}

/// What a key contributes to a sum: `value` while it is held, nothing otherwise.
pub open spec fn while_held(held: bool, value: int) -> int {
    if held {
        value
    } else {
        0
    }
}

/// The direction, along X and Z, that the held keys ask for, given which way
/// is forward and which way is right: forward and strafing right add their
/// vector, back and strafing left subtract it. Keys held together add up,
/// opposite keys cancel, and the sum is not normalised, so a diagonal is
/// longer than either of its parts.
pub open spec fn steering(keys: HeldKeys, forward: (int, int), right: (int, int)) -> (int, int) {
    (
        while_held(keys.forward, forward.0) - while_held(keys.back, forward.0) - while_held(
            keys.strafe_left,
            right.0,
        ) + while_held(keys.strafe_right, right.0),
        while_held(keys.forward, forward.1) - while_held(keys.back, forward.1) - while_held(
            keys.strafe_left,
            right.1,
        ) + while_held(keys.strafe_right, right.1),
    )
}

/// The direction in world-axis mode, in whole steps: forward is +X and right is +Z.
pub open spec fn world_axis_direction(keys: HeldKeys) -> (int, int) {
    steering(keys, (1, 0), (0, 1))
}

/// The direction in camera-relative mode: forward is the local Z axis
/// negated, and right is that axis turned a quarter about the vertical, `(z, -x)`.
pub open spec fn camera_relative_direction(keys: HeldKeys, local_z: LocalZ) -> (int, int) {
    steering(keys, (-local_z.x, -local_z.z), (local_z.z as int, -local_z.x))
}

/// The distance covered in world-axis mode along one axis: direction times
/// elapsed time times speed, rounded toward zero.
pub open spec fn world_axis_travel(direction: int, dt: u32) -> int {
    trunc_div(direction * dt * WORLD_AXIS_SPEED, SCALE as int)
}

/// The distance covered in camera-relative mode along one horizontal axis:
/// direction times elapsed time times speed, rounded toward zero.
pub open spec fn camera_travel(direction: int, dt: u32) -> int {
    trunc_div(direction * dt * CAMERA_SPEED, SCALE * SCALE)
}

/// Computes the world-axis direction.
pub fn direction_on_world_axes(keys: HeldKeys) -> (direction: (i8, i8))
    ensures
        direction.0 == world_axis_direction(keys).0,
        direction.1 == world_axis_direction(keys).1,
{
    let mut x: i8 = 0;
    let mut z: i8 = 0;
    if keys.forward {
        x += 1;
    }
    if keys.back {
        x -= 1;
    }
    if keys.strafe_right {
        z += 1;
    }
    if keys.strafe_left {
        z -= 1;
    }
    (x, z)
}

/// Computes the camera-relative direction.
pub fn direction_from_camera(keys: HeldKeys, local_z: LocalZ) -> (direction: (i128, i128))
    ensures
        direction.0 == camera_relative_direction(keys, local_z).0,
        direction.1 == camera_relative_direction(keys, local_z).1,
{
    let mut x: i128 = 0;
    let mut z: i128 = 0;
    if keys.forward {
        x -= local_z.x as i128;
        z -= local_z.z as i128;
    }
    if keys.back {
        x += local_z.x as i128;
        z += local_z.z as i128;
    }
    if keys.strafe_left {
        x -= local_z.z as i128;
        z += local_z.x as i128;
    }
    if keys.strafe_right {
        x += local_z.z as i128;
        z -= local_z.x as i128;
    }
    (x, z)
}

/// Computes the distance covered in world-axis mode along one axis.
pub(crate) fn travel_on_world_axis(direction: i8, dt: u32) -> (distance: i128)
    requires
        -1 <= direction <= 1,
    ensures
        distance == world_axis_travel(direction as int, dt),
        -0x2_0000_0000 <= distance <= 0x2_0000_0000,
{
    proof {
        lemma_product_bound(direction as int, dt as int, 1, 0x1_0000_0000);
    }
    let stretched: i128 = direction as i128 * dt as i128;
    proof {
        lemma_product_bound(stretched as int, WORLD_AXIS_SPEED as int, 0x1_0000_0000, 2_000_000);
    }
    let scaled: i128 = stretched * WORLD_AXIS_SPEED as i128;
    proof {
        lemma_trunc_div_bound(scaled as int, SCALE as int, 0x2_0000_0000);
    }
    scaled / SCALE as i128
}

/// Computes the distance covered in camera-relative mode along one horizontal axis.
pub(crate) fn travel_from_camera(direction: i128, dt: u32) -> (distance: i128)
    requires
        -0x4_0000_0000_0000_0000 <= direction <= 0x4_0000_0000_0000_0000,
    ensures
        distance == camera_travel(direction as int, dt),
        -0x1_0000_0000_0000_0000_0000_0000 <= distance <= 0x1_0000_0000_0000_0000_0000_0000,
{
    proof {
        lemma_product_bound(direction as int, dt as int, 0x4_0000_0000_0000_0000, 0x1_0000_0000);
    }
    let stretched: i128 = direction * dt as i128;
    proof {
        lemma_product_bound(
            stretched as int,
            CAMERA_SPEED as int,
            0x4_0000_0000_0000_0000_0000_0000,
            5_000_000,
        );
        lemma_product_bound(SCALE as int, SCALE as int, 1_000_000, 1_000_000);
    }
    let scaled: i128 = stretched * CAMERA_SPEED as i128;
    let unit: i128 = SCALE as i128 * SCALE as i128;
    proof {
        assert(unit == 1_000_000_000_000) by (nonlinear_arith)
            requires
                unit == SCALE * SCALE,
                SCALE == 1_000_000,
        ;
        lemma_trunc_div_bound(scaled as int, unit as int, 0x1_0000_0000_0000_0000_0000_0000);
    }
    scaled / unit
}

} // verus!
