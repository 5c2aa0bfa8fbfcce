//! The vertical integrator: jumping, falling and landing.
//!
//! The camera is grounded while its height is at or below the ground
//! threshold, and airborne above it. Holding the jump key on the ground adds
//! an upward impulse to the vertical velocity; in the air the velocity drops
//! by the gravity constant once per tick, whatever the tick's length. The
//! height then changes by velocity times elapsed time squared times the
//! camera speed, so that both the jump and the fall depend on the frame rate.

use crate::fixed::lemma_product_bound;
use crate::fixed::lemma_trunc_div_bound;
use crate::fixed::lemma_trunc_div_cancel;
use crate::fixed::saturate;
use crate::fixed::saturated;
use crate::fixed::trunc_div;
use crate::fixed::SCALE;
use crate::movement::CAMERA_SPEED;
use vstd::prelude::*;

verus! {

/// The height at and below which the camera stands on the ground.
pub const GROUND_THRESHOLD: i64 = 2_000_000;

/// What the vertical velocity loses in each airborne tick.
pub const GRAVITY: i64 = 9_800_000;

/// What a jump adds to the vertical velocity.
pub const JUMP_IMPULSE: i64 = 150_000_000;

/// Whether a camera at this height stands on the ground.
pub open spec fn is_grounded(height: i64) -> bool {
    height <= GROUND_THRESHOLD
}

/// The vertical velocity that drives a tick: on the ground the old velocity,
/// with the jump impulse added if the jump key is held; in the air the old
/// velocity less gravity.
pub open spec fn driving_velocity(height: i64, velocity: i64, jump: bool) -> i64 {
    if is_grounded(height) {
        if jump {
            saturated(velocity + JUMP_IMPULSE)
        } else {
            velocity
        }
    } else {
        saturated(velocity - GRAVITY)
    }
}

/// The change of height in one tick: velocity times elapsed time squared
/// times the camera speed, rounded toward zero.
pub open spec fn rise(velocity: i64, dt: u32) -> int {
    trunc_div(velocity * dt * dt * CAMERA_SPEED, SCALE * SCALE * SCALE)
}

/// Height and vertical velocity after one tick of `dt` seconds. A tick of no
/// length changes nothing. Otherwise the height moves by the rise of the
/// driving velocity; if that brings it to the threshold or below, the
/// velocity becomes zero, and a camera that was airborne is set down exactly
/// on the threshold.
pub open spec fn integrated(height: i64, velocity: i64, jump: bool, dt: u32) -> (i64, i64) {
    if dt == 0 {
        (height, velocity)
    } else {
        let driving = driving_velocity(height, velocity, jump);
        let reached = saturated(height + rise(driving, dt));
        if is_grounded(reached) {
            (
                if is_grounded(height) {
                    reached
                } else {
                    GROUND_THRESHOLD
                },
                0i64,
            )
        } else {
            (reached, driving)
        }
    }
}

/// Computes the change of height in one tick.
fn rise_of(velocity: i64, dt: u32) -> (change: i128)
    ensures
        change == rise(velocity, dt),
        -0x1_0000_0000_0000_0000_0000_0000 <= change <= 0x1_0000_0000_0000_0000_0000_0000,
{
    proof {
        lemma_product_bound(velocity as int, dt as int, 0x8000_0000_0000_0000, 0xffff_ffff);
    }
    let once: i128 = velocity as i128 * dt as i128;
    proof {
        lemma_product_bound(
            once as int,
            dt as int,
            0x7fff_ffff_8000_0000_0000_0000,
            0xffff_ffff,
        );
    }
    let twice: i128 = once * dt as i128;
    proof {
        // The speed over the cube of the scale is one part in 2 * 10^11.
        lemma_trunc_div_cancel(twice as int, 200_000_000_000, CAMERA_SPEED as int);
        assert(SCALE * SCALE * SCALE == 200_000_000_000 * CAMERA_SPEED) by (nonlinear_arith)
            requires
                SCALE == 1_000_000,
                CAMERA_SPEED == 5_000_000,
        ;
        lemma_trunc_div_bound(
            twice as int,
            200_000_000_000,
            0x1_0000_0000_0000_0000_0000_0000,
        );
    }
    twice / 200_000_000_000
}

/// Advances height and vertical velocity by one tick of `dt` seconds.
pub fn integrate_vertical(height: i64, velocity: i64, jump: bool, dt: u32) -> (after: (i64, i64))
    ensures
        after == integrated(height, velocity, jump, dt),
{
    if dt == 0 {
        return (height, velocity);
    }
    let grounded: bool = height <= GROUND_THRESHOLD;
    let driving: i64 = if grounded {
        if jump {
            saturate(velocity as i128 + JUMP_IMPULSE as i128)
        } else {
            velocity
        }
    } else {
        saturate(velocity as i128 - GRAVITY as i128)
    };
    let reached: i64 = saturate(height as i128 + rise_of(driving, dt));
    if reached <= GROUND_THRESHOLD {
        if grounded {
            (reached, 0)
        } else {
            (GROUND_THRESHOLD, 0)
        }
    } else {
        (reached, driving)
    }
}

} // verus!
