//! The look controller: pointer motion turns the camera.
//!
//! An orientation is held as two angles, a yaw about the world's vertical
//! axis followed by a pitch about the camera's own X axis. Whatever the
//! angles are, the rotation they denote is a unit rotation without roll, so
//! no renormalisation is ever needed; the angles themselves are brought back
//! into one turn after every step.

use crate::fixed::lemma_product_bound;
use crate::fixed::lemma_trunc_div_bound;
use crate::fixed::trunc_div;
use crate::fixed::SCALE;
use vstd::prelude::*;

verus! {

/// Degrees of rotation per device unit of pointer travel.
pub const LOOK_SENSITIVITY: i64 = 200_000;

/// 180 degrees.
pub const HALF_TURN: i64 = 180_000_000;

/// 360 degrees.
pub const FULL_TURN: i64 = 360_000_000;

/// One pointer-motion event: how far the pointer has travelled, in device units.
#[derive(Clone, Copy, Debug, PartialEq, Eq)]
pub struct PointerMotion {
    pub dx: i64,
    pub dy: i64,
}

/// What the look controller asks of the window's pointer.
#[derive(Clone, Copy, Debug, PartialEq, Eq)]
pub struct CursorRequest {
    pub visible: bool,
    pub confined: bool,
}

/// The rotation that yaws by `yaw` degrees about the world's vertical axis
/// and then pitches by `pitch` degrees about the camera's own X axis.
#[derive(Clone, Copy, Debug, PartialEq, Eq)]
pub struct Orientation {
    pub yaw: i64,
    pub pitch: i64,
}

/// The angle in `[-180°, 180°)` that differs from `angle` by whole turns.
pub open spec fn wrap_angle(angle: int) -> i64 {
    ((angle + HALF_TURN) % (FULL_TURN as int) - HALF_TURN) as i64
}

/// The rotation that a pointer displacement asks for: the displacement times
/// the sensitivity, against the direction of travel, rounded toward zero.
pub open spec fn look_angle(delta: i64) -> int {
    -trunc_div(delta * LOOK_SENSITIVITY, SCALE as int)
}

/// Brings an angle back into one turn.
fn wrap(angle: i128) -> (wrapped: i64)
    requires
        -0x1_0000_0000_0000_0000 <= angle <= 0x1_0000_0000_0000_0000,
    ensures
        wrapped == wrap_angle(angle as int),
        -HALF_TURN <= wrapped < HALF_TURN,
{
    let shifted: i128 = angle + HALF_TURN as i128;
    let within: i128 = match shifted.checked_rem_euclid(FULL_TURN as i128) {
        Some(rest) => rest,
        None => 0,
    };
    (within - HALF_TURN as i128) as i64
}

/// Computes the rotation that a pointer displacement asks for.
fn angle_for(delta: i64) -> (angle: i64)
    ensures
        angle == look_angle(delta),
        -0x2000_0000_0000_0000 <= angle <= 0x2000_0000_0000_0000,
{
    proof {
        lemma_product_bound(
            delta as int,
            LOOK_SENSITIVITY as int,
            0x8000_0000_0000_0000,
            200_000,
        );
    }
    let product: i128 = delta as i128 * LOOK_SENSITIVITY as i128;
    proof {
        lemma_trunc_div_bound(product as int, SCALE as int, 0x2000_0000_0000_0000);
    }
    let quotient: i128 = product / SCALE as i128;
    (-quotient) as i64
}

impl Orientation {
    /// Both angles lie in `[-180°, 180°)`.
    pub open spec fn wf(self) -> bool {
        &&& -HALF_TURN <= self.yaw < HALF_TURN
        &&& -HALF_TURN <= self.pitch < HALF_TURN
    }

    /// The orientation after one pointer-motion event. The yaw is applied in
    /// world space and the pitch in the camera's own space, so each simply
    /// adds to its angle. The pitch is not limited: past the vertical it
    /// wraps round and the view flips over.
    pub open spec fn turned(self, motion: PointerMotion) -> Orientation {
        Orientation {
            yaw: wrap_angle(self.yaw + look_angle(motion.dx)),
            pitch: wrap_angle(self.pitch + look_angle(motion.dy)),
        }
    }

    /// The orientation after a sequence of events, applied one after another in order.
    pub open spec fn turned_all(self, motions: Seq<PointerMotion>) -> Orientation
        decreases motions.len(),
    {
        if motions.len() == 0 {
            self
        } else {
            self.turned_all(motions.drop_last()).turned(motions.last())
        }
    }

    /// The orientation with the given angles, each brought into `[-180°, 180°)`.
    pub fn new(yaw: i64, pitch: i64) -> (orientation: Orientation)
        ensures
            orientation.wf(),
            orientation.yaw == wrap_angle(yaw as int),
            orientation.pitch == wrap_angle(pitch as int),
    {
        Orientation { yaw: wrap(yaw as i128), pitch: wrap(pitch as i128) }
    }

    /// Applies one pointer-motion event.
    pub fn turn(&mut self, motion: PointerMotion)
        ensures
            *final(self) == old(self).turned(motion),
            final(self).wf(),
    {
        let yaw: i64 = wrap(self.yaw as i128 + angle_for(motion.dx) as i128);
        let pitch: i64 = wrap(self.pitch as i128 + angle_for(motion.dy) as i128);
        self.yaw = yaw;
        self.pitch = pitch;
    }

    /// Applies the pointer-motion events of one tick, in order, and asks for
    /// the pointer to be hidden and confined to the window.
    pub fn look(&mut self, motions: &[PointerMotion]) -> (request: CursorRequest)
        ensures
            *final(self) == old(self).turned_all(motions@),
            old(self).wf() || motions@.len() > 0 ==> final(self).wf(),
            !request.visible,
            request.confined,
    {
        let mut current: Orientation = *self;
        let mut i: usize = 0;
        while i < motions.len()
            invariant
                i <= motions.len(),
                current == old(self).turned_all(motions@.take(i as int)),
                old(self).wf() || i > 0 ==> current.wf(),
            decreases motions.len() - i,
        {
            proof {
                let next = motions@.take(i + 1);
                assert(next.drop_last() =~= motions@.take(i as int));
                assert(next.last() == motions@[i as int]);
            }
            current.turn(motions[i]);
            i += 1;
        }
        proof {
            assert(motions@.take(i as int) =~= motions@);
        }
        *self = current;
        CursorRequest { visible: false, confined: true }
    }
}

} // verus!
