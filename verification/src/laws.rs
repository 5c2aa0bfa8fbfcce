//! What holds of the controllers on every input.

use crate::fixed::SCALE;
use crate::keys::HeldKeys;
use crate::look::Orientation;
use crate::look::LOOK_SENSITIVITY;
use crate::look::PointerMotion;
use crate::movement::world_axis_direction;
use crate::movement::world_axis_travel;
use crate::movement::LocalZ;
use crate::movement::MoveMode;
use crate::movement::CAMERA_SPEED;
use crate::movement::WORLD_AXIS_SPEED;
use crate::pose::CameraPose;
use crate::vertical::driving_velocity;
use crate::vertical::rise;
use crate::vertical::GRAVITY;
use crate::vertical::GROUND_THRESHOLD;
use crate::vertical::JUMP_IMPULSE;
use vstd::prelude::*;

verus! {

/// A tick without input changes nothing: with no pointer motion and no
/// steering key held, a well-formed pose is the same after the look and the
/// move controller have run, however long the tick, provided that the camera
/// is on the ground or moves in world-axis mode. (In the air, in
/// camera-relative mode, it falls.)
pub proof fn lemma_idle_tick_keeps_pose(pose: CameraPose, mode: MoveMode, keys: HeldKeys, dt: u32)
    requires
        pose.wf(),
        !keys.steers(),
        mode is WorldAxis || pose.grounded(),
    ensures
        pose.looked(Seq::empty()).advanced(mode, keys, dt) == pose,
{
    assert(pose.looked(Seq::empty()) == pose);
    // A camera at rest neither travels nor rises.
    assert(0int * dt == 0);
    assert(0int * dt * dt == 0);
}

/// Events applied tick by tick give what they give when applied as one
/// sequence: only their order matters, not how they are split into ticks.
pub proof fn lemma_turns_compose(
    start: Orientation,
    first: Seq<PointerMotion>,
    second: Seq<PointerMotion>,
)
    ensures
        start.turned_all(first + second) == start.turned_all(first).turned_all(second),
    decreases second.len(),
{
    if second.len() == 0 {
        assert(first + second =~= first);
    } else {
        lemma_turns_compose(start, first, second.drop_last());
        assert((first + second).drop_last() =~= first + second.drop_last());
        assert((first + second).last() == second.last());
    }
}

/// Both angles of a well-formed orientation stay in `[-180°, 180°)` through
/// any sequence of pointer-motion events.
pub proof fn lemma_orientation_stays_in_range(start: Orientation, motions: Seq<PointerMotion>)
    requires
        start.wf(),
    ensures
        start.turned_all(motions).wf(),
    decreases motions.len(),
{
    if motions.len() > 0 {
        lemma_orientation_stays_in_range(start, motions.drop_last());
    }
}

/// Pointer motion that is purely horizontal never changes the pitch.
pub proof fn lemma_yaw_only_keeps_pitch(start: Orientation, motions: Seq<PointerMotion>)
    requires
        start.wf(),
        forall|i: int| 0 <= i < motions.len() ==> (#[trigger] motions[i]).dy == 0,
    ensures
        start.turned_all(motions).pitch == start.pitch,
    decreases motions.len(),
{
    if motions.len() > 0 {
        lemma_yaw_only_keeps_pitch(start, motions.drop_last());
        lemma_orientation_stays_in_range(start, motions.drop_last());
        assert(motions.last().dy == 0);
        assert(0int * LOOK_SENSITIVITY == 0);
    }
}

/// In world-axis mode the camera covers, in a tick of `dt` seconds, the
/// distance `dt` times the speed times the length of the direction, and the
/// direction is not normalised: its squared length is the number of axes on
/// which exactly one of the two opposite keys is held, so a diagonal is
/// faster than a move along one axis. This holds wherever the move does not
/// run into the end of the `i64` range.
pub proof fn lemma_world_axis_speed(pose: CameraPose, keys: HeldKeys, dt: u32)
    requires
        i64::MIN <= pose.position.x + world_axis_travel(world_axis_direction(keys).0, dt)
            <= i64::MAX,
        i64::MIN <= pose.position.z + world_axis_travel(world_axis_direction(keys).1, dt)
            <= i64::MAX,
    ensures
        ({
            let after = pose.advanced(MoveMode::WorldAxis, keys, dt);
            let dx = after.position.x - pose.position.x;
            let dz = after.position.z - pose.position.z;
            let direction = world_axis_direction(keys);
            let length_squared = direction.0 * direction.0 + direction.1 * direction.1;
            &&& after.position.y == pose.position.y
            &&& (dx * dx + dz * dz) * (SCALE * SCALE) == (dt * WORLD_AXIS_SPEED) * (dt
                * WORLD_AXIS_SPEED) * length_squared
            &&& length_squared == (if keys.forward != keys.back { 1int } else { 0 }) + (
            if keys.strafe_left != keys.strafe_right { 1int } else { 0 })
        }),
{
    let direction = world_axis_direction(keys);
    let after = pose.advanced(MoveMode::WorldAxis, keys, dt);
    let dx = after.position.x - pose.position.x;
    let dz = after.position.z - pose.position.z;
    lemma_world_axis_travel_exact(direction.0, dt);
    lemma_world_axis_travel_exact(direction.1, dt);
    if dt == 0 {
        assert(direction.0 * dt == 0 && direction.1 * dt == 0) by (nonlinear_arith)
            requires
                dt == 0,
        ;
    }
    assert(dx == direction.0 * dt * 2);
    assert(dz == direction.1 * dt * 2);
    let a = direction.0;
    let b = direction.1;
    let t = dt as int;
    assert(((a * t * 2) * (a * t * 2) + (b * t * 2) * (b * t * 2)) * (1_000_000int * 1_000_000)
        == (t * 2_000_000) * (t * 2_000_000) * (a * a + b * b)) by (nonlinear_arith);
    assert(SCALE * SCALE == 1_000_000int * 1_000_000) by (nonlinear_arith)
        requires
            SCALE == 1_000_000,
    ;
    assert(a * a + b * b == (if keys.forward != keys.back { 1int } else { 0 }) + (
    if keys.strafe_left != keys.strafe_right { 1int } else { 0 })) by (nonlinear_arith)
        requires
            a == (if keys.forward { 1int } else { 0 }) - (if keys.back { 1int } else { 0 }),
            b == (if keys.strafe_right { 1int } else { 0 }) - (if keys.strafe_left {
                1int
            } else {
                0
            }),
    ;
}

/// In world-axis mode nothing is lost to rounding: along each axis the
/// camera covers exactly two units per second for each step of direction.
pub proof fn lemma_world_axis_travel_exact(direction: int, dt: u32)
    ensures
        world_axis_travel(direction, dt) == direction * dt * 2,
{
    let n = direction * dt;
    assert(n * WORLD_AXIS_SPEED == (n * 2) * 1_000_000);
    if n >= 0 {
        assert(((n * 2) * 1_000_000) / 1_000_000 == n * 2) by (nonlinear_arith)
            requires
                n >= 0,
        ;
    } else {
        assert(-(n * WORLD_AXIS_SPEED) == ((-n) * 2) * 1_000_000);
        assert((((-n) * 2) * 1_000_000) / 1_000_000 == (-n) * 2) by (nonlinear_arith)
            requires
                n < 0,
        ;
    }
}

/// Landing: when an airborne camera's height, as computed for the tick,
/// comes to the ground threshold or below it, the tick ends with the
/// vertical velocity exactly zero and the camera exactly on the threshold.
pub proof fn lemma_landing_stops_the_fall(
    pose: CameraPose,
    local_z: LocalZ,
    keys: HeldKeys,
    dt: u32,
)
    requires
        !pose.grounded(),
        pose.position.y + rise(
            driving_velocity(pose.position.y, pose.vertical_velocity, keys.jump),
            dt,
        ) <= GROUND_THRESHOLD,
    ensures
        pose.advanced(MoveMode::CameraRelative(local_z), keys, dt).vertical_velocity == 0,
        pose.advanced(MoveMode::CameraRelative(local_z), keys, dt).position.y == GROUND_THRESHOLD,
{
    let driving = driving_velocity(pose.position.y, pose.vertical_velocity, keys.jump);
    if dt == 0 {
        assert(driving * dt * dt == 0) by (nonlinear_arith)
            requires
                dt == 0,
        ;
    }
}

/// On the ground, with the jump key up, the camera stays where it stands:
/// after the tick it is still grounded, at the same height, with the
/// vertical velocity still zero.
pub proof fn lemma_grounded_stays_grounded(pose: CameraPose, mode: MoveMode, keys: HeldKeys, dt: u32)
    requires
        pose.wf(),
        pose.grounded(),
        !keys.jump,
    ensures
        pose.advanced(mode, keys, dt).grounded(),
        pose.advanced(mode, keys, dt).position.y == pose.position.y,
        pose.advanced(mode, keys, dt).vertical_velocity == 0,
{
    assert(0int * dt == 0);
    assert(0int * dt * dt == 0);
}

/// The move controller keeps a well-formed pose well-formed: the
/// orientation is untouched, and a tick that ends on the ground ends with
/// the vertical velocity zero.
pub proof fn lemma_advance_keeps_wf(pose: CameraPose, mode: MoveMode, keys: HeldKeys, dt: u32)
    requires
        pose.wf(),
    ensures
        pose.advanced(mode, keys, dt).wf(),
{
}

/// Through any sequence of ticks a well-formed pose stays well-formed.
pub proof fn lemma_pose_stays_well_formed(pose: CameraPose, ticks: Seq<(MoveMode, HeldKeys, u32)>)
    requires
        pose.wf(),
    ensures
        pose.advanced_through(ticks).wf(),
    decreases ticks.len(),
{
    if ticks.len() > 0 {
        let tick = ticks.last();
        lemma_pose_stays_well_formed(pose, ticks.drop_last());
        lemma_advance_keeps_wf(pose.advanced_through(ticks.drop_last()), tick.0, tick.1, tick.2);
    }
}

/// Through any sequence of ticks in none of which the jump key is held, a
/// camera that stands on the ground stays at its height with the vertical
/// velocity zero.
pub proof fn lemma_no_jump_no_flight(pose: CameraPose, ticks: Seq<(MoveMode, HeldKeys, u32)>)
    requires
        pose.wf(),
        pose.grounded(),
        forall|i: int| 0 <= i < ticks.len() ==> !(#[trigger] ticks[i]).1.jump,
    ensures
        pose.advanced_through(ticks).grounded(),
        pose.advanced_through(ticks).position.y == pose.position.y,
        pose.advanced_through(ticks).vertical_velocity == 0,
    decreases ticks.len(),
{
    if ticks.len() > 0 {
        let tick = ticks.last();
        let before = pose.advanced_through(ticks.drop_last());
        lemma_no_jump_no_flight(pose, ticks.drop_last());
        lemma_pose_stays_well_formed(pose, ticks.drop_last());
        assert(!tick.1.jump);
        lemma_grounded_stays_grounded(before, tick.0, tick.1, tick.2);
    }
}

/// Jumping: a camera at rest on the ground threshold, with the jump key held
/// for a tick long enough for the impulse to lift it at all, ends the tick
/// in the air, higher than it stood, with the jump impulse as its vertical
/// velocity: gravity has not acted on it yet.
pub proof fn lemma_jump_lifts_off(pose: CameraPose, local_z: LocalZ, keys: HeldKeys, dt: u32)
    requires
        pose.wf(),
        pose.position.y == GROUND_THRESHOLD,
        keys.jump,
        rise(JUMP_IMPULSE, dt) >= 1,
    ensures
        pose.advanced(MoveMode::CameraRelative(local_z), keys, dt).vertical_velocity
            == JUMP_IMPULSE,
        pose.advanced(MoveMode::CameraRelative(local_z), keys, dt).position.y
            == GROUND_THRESHOLD + rise(JUMP_IMPULSE, dt),
        pose.advanced(MoveMode::CameraRelative(local_z), keys, dt).position.y > pose.position.y,
{
    lemma_jump_rise_fits(dt);
    if dt == 0 {
        assert(JUMP_IMPULSE * dt * dt == 0) by (nonlinear_arith)
            requires
                dt == 0,
        ;
    }
}

/// The rise of a jump is far from the end of the `i64` range.
proof fn lemma_jump_rise_fits(dt: u32)
    ensures
        0 <= rise(JUMP_IMPULSE, dt) <= 0x1_0000_0000_0000_0000 * 750 / 1_000_000,
{
    let t = dt as int;
    assert(0 <= t * t <= 0x1_0000_0000_0000_0000) by (nonlinear_arith)
        requires
            0 <= t <= 0xffff_ffff,
    ;
    assert(JUMP_IMPULSE * dt * dt == 150_000_000 * (t * t)) by (nonlinear_arith)
        requires
            JUMP_IMPULSE == 150_000_000,
            t == dt,
    ;
    let n = 150_000_000 * (t * t) * CAMERA_SPEED;
    assert(SCALE * SCALE * SCALE == 1_000_000_000_000_000_000int) by (nonlinear_arith)
        requires
            SCALE == 1_000_000,
    ;
    assert(0 <= n / 1_000_000_000_000_000_000 <= 0x1_0000_0000_0000_0000 * 750 / 1_000_000)
        by (nonlinear_arith)
        requires
            n == 750_000_000_000_000 * (t * t),
            0 <= t * t <= 0x1_0000_0000_0000_0000,
    ;
}

/// Rising: in the air, as long as the vertical velocity is still positive
/// after gravity has taken its share, and the tick is long enough for that
/// velocity to lift the camera at all, the camera ends the tick higher than
/// it began, still airborne. This holds wherever the rise does not run into
/// the end of the `i64` range.
pub proof fn lemma_airborne_rises_while_velocity_positive(
    pose: CameraPose,
    local_z: LocalZ,
    keys: HeldKeys,
    dt: u32,
)
    requires
        !pose.grounded(),
        pose.vertical_velocity > GRAVITY,
        rise((pose.vertical_velocity - GRAVITY) as i64, dt) >= 1,
        pose.position.y + rise((pose.vertical_velocity - GRAVITY) as i64, dt) <= i64::MAX,
    ensures
        pose.advanced(MoveMode::CameraRelative(local_z), keys, dt).position.y > pose.position.y,
        pose.advanced(MoveMode::CameraRelative(local_z), keys, dt).vertical_velocity
            == pose.vertical_velocity - GRAVITY,
        !pose.advanced(MoveMode::CameraRelative(local_z), keys, dt).grounded(),
{
    if dt == 0 {
        let v = (pose.vertical_velocity - GRAVITY) as i64;
        assert(v * dt * dt == 0) by (nonlinear_arith)
            requires
                dt == 0,
        ;
    }
}

/// Falling: in the air, once gravity has used up the vertical velocity, the
/// camera ends the tick no higher than it began.
pub proof fn lemma_airborne_falls_once_velocity_is_spent(
    pose: CameraPose,
    local_z: LocalZ,
    keys: HeldKeys,
    dt: u32,
)
    requires
        !pose.grounded(),
        pose.vertical_velocity <= GRAVITY,
    ensures
        pose.advanced(MoveMode::CameraRelative(local_z), keys, dt).position.y <= pose.position.y,
{
    let driving = driving_velocity(pose.position.y, pose.vertical_velocity, keys.jump);
    assert(driving <= 0);
    assert(driving * dt * dt * CAMERA_SPEED <= 0) by (nonlinear_arith)
        requires
            driving <= 0,
            dt >= 0,
            CAMERA_SPEED == 5_000_000,
    ;
    assert(SCALE * SCALE * SCALE == 1_000_000_000_000_000_000int) by (nonlinear_arith)
        requires
            SCALE == 1_000_000,
    ;
    assert(rise(driving, dt) <= 0);
}

} // verus!
