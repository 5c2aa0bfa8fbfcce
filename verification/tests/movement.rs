use first_person_camera::fixed::saturate;
use first_person_camera::fixed::SCALE;
use first_person_camera::keys::HeldKeys;
use first_person_camera::look::Orientation;
use first_person_camera::movement::direction_from_camera;
use first_person_camera::movement::direction_on_world_axes;
use first_person_camera::movement::LocalZ;
use first_person_camera::movement::MoveMode;
use first_person_camera::movement::CAMERA_SPEED;
use first_person_camera::movement::WORLD_AXIS_SPEED;
use first_person_camera::pose::CameraPose;
use first_person_camera::pose::Position;

fn keys(forward: bool, back: bool, strafe_left: bool, strafe_right: bool) -> HeldKeys {
    HeldKeys { forward, back, strafe_left, strafe_right, jump: false, exit: false }
}

fn standing_at(x: i64, y: i64, z: i64) -> CameraPose {
    CameraPose::new(Position { x, y, z }, Orientation { yaw: 0, pitch: 0 })
}

#[test]
fn movement_constants() {
    assert_eq!(SCALE, 1_000_000);
    assert_eq!(WORLD_AXIS_SPEED, 2_000_000);
    assert_eq!(CAMERA_SPEED, 5_000_000);
}

#[test]
fn saturate_stops_at_the_ends_of_the_range() {
    assert_eq!(saturate(0), 0);
    assert_eq!(saturate(-42), -42);
    assert_eq!(saturate(i64::MAX as i128), i64::MAX);
    assert_eq!(saturate(i64::MAX as i128 + 1), i64::MAX);
    assert_eq!(saturate(i64::MIN as i128 - 1), i64::MIN);
    assert_eq!(saturate(i128::MAX), i64::MAX);
    assert_eq!(saturate(i128::MIN), i64::MIN);
}

#[test]
fn world_axis_direction_of_each_key() {
    assert_eq!(direction_on_world_axes(keys(false, false, false, false)), (0, 0));
    assert_eq!(direction_on_world_axes(keys(true, false, false, false)), (1, 0));
    assert_eq!(direction_on_world_axes(keys(false, true, false, false)), (-1, 0));
    assert_eq!(direction_on_world_axes(keys(false, false, true, false)), (0, -1));
    assert_eq!(direction_on_world_axes(keys(false, false, false, true)), (0, 1));
}

#[test]
fn world_axis_opposite_keys_cancel() {
    assert_eq!(direction_on_world_axes(keys(true, true, false, false)), (0, 0));
    assert_eq!(direction_on_world_axes(keys(false, false, true, true)), (0, 0));
    assert_eq!(direction_on_world_axes(keys(true, true, true, true)), (0, 0));
    assert_eq!(direction_on_world_axes(keys(true, true, false, true)), (0, 1));
}

#[test]
fn world_axis_direction_ignores_jump_and_exit() {
    let held = HeldKeys { jump: true, exit: true, ..keys(true, false, true, false) };
    assert_eq!(direction_on_world_axes(held), (1, -1));
}

#[test]
fn world_axis_forward_for_half_a_second() {
    let mut pose = standing_at(-2_000_000, 2_000_000, 0);
    pose.advance(MoveMode::WorldAxis, keys(true, false, false, false), 500_000);
    assert_eq!(pose.position, Position { x: -1_000_000, y: 2_000_000, z: 0 });
    assert_eq!(pose.vertical_velocity, 0);
    assert_eq!(pose.orientation, Orientation { yaw: 0, pitch: 0 });
}

#[test]
fn world_axis_speed_for_every_key_combination() {
    let dt: u32 = 16_667;
    for bits in 0..16u32 {
        let held = keys(bits & 1 != 0, bits & 2 != 0, bits & 4 != 0, bits & 8 != 0);
        let mut pose = standing_at(7, 2_000_000, -9);
        pose.advance(MoveMode::WorldAxis, held, dt);
        let dx = (pose.position.x - 7) as i128;
        let dz = (pose.position.z + 9) as i128;
        let axes = (held.forward != held.back) as i128 + (held.strafe_left != held.strafe_right) as i128;
        let reach = dt as i128 * WORLD_AXIS_SPEED as i128;
        assert_eq!((dx * dx + dz * dz) * 1_000_000_000_000, reach * reach * axes);
        assert_eq!(pose.position.y, 2_000_000);
    }
}

#[test]
fn world_axis_diagonal_is_not_shortened() {
    let mut pose = standing_at(0, 2_000_000, 0);
    pose.advance(MoveMode::WorldAxis, keys(true, false, false, true), 1_000_000);
    assert_eq!(pose.position, Position { x: 2_000_000, y: 2_000_000, z: 2_000_000 });
    let length = ((pose.position.x as f64).powi(2) + (pose.position.z as f64).powi(2)).sqrt() / 1e6;
    assert!((length - 2.0 * 2.0_f64.sqrt()).abs() < 1e-9);
}

#[test]
fn world_axis_mode_does_not_fall() {
    let mut pose = CameraPose {
        position: Position { x: 0, y: 50_000_000, z: 0 },
        orientation: Orientation { yaw: 0, pitch: 0 },
        vertical_velocity: -3_000_000,
    };
    let held = HeldKeys { jump: true, ..keys(false, true, false, false) };
    pose.advance(MoveMode::WorldAxis, held, 16_667);
    assert_eq!(pose.position, Position { x: -33_334, y: 50_000_000, z: 0 });
    assert_eq!(pose.vertical_velocity, -3_000_000);
}

#[test]
fn world_axis_longest_tick() {
    let mut pose = standing_at(0, 2_000_000, 0);
    pose.advance(MoveMode::WorldAxis, keys(true, false, false, false), u32::MAX);
    assert_eq!(pose.position.x, 8_589_934_590);
}

#[test]
fn position_stops_at_the_end_of_the_range() {
    let mut pose = standing_at(i64::MAX - 5, 2_000_000, i64::MIN + 5);
    pose.advance(MoveMode::WorldAxis, keys(true, false, true, false), 1_000_000);
    assert_eq!(pose.position, Position { x: i64::MAX, y: 2_000_000, z: i64::MIN });
    let far = LocalZ { x: i64::MIN, z: i64::MIN };
    let mut other = standing_at(0, 2_000_000, 0);
    other.advance(MoveMode::CameraRelative(far), keys(true, false, true, false), u32::MAX);
    assert_eq!(other.position, Position { x: i64::MAX, y: 2_000_000, z: 0 });
}

#[test]
fn camera_relative_direction_of_each_key() {
    let local_z = LocalZ { x: 600_000, z: -800_000 };
    assert_eq!(direction_from_camera(keys(false, false, false, false), local_z), (0, 0));
    assert_eq!(direction_from_camera(keys(true, false, false, false), local_z), (-600_000, 800_000));
    assert_eq!(direction_from_camera(keys(false, true, false, false), local_z), (600_000, -800_000));
    assert_eq!(direction_from_camera(keys(false, false, true, false), local_z), (800_000, 600_000));
    assert_eq!(direction_from_camera(keys(false, false, false, true), local_z), (-800_000, -600_000));
}

#[test]
fn camera_relative_directions_add_up() {
    let local_z = LocalZ { x: 600_000, z: -800_000 };
    assert_eq!(direction_from_camera(keys(true, false, false, true), local_z), (-1_400_000, 200_000));
    assert_eq!(direction_from_camera(keys(true, true, false, false), local_z), (0, 0));
    assert_eq!(direction_from_camera(keys(true, true, true, true), local_z), (0, 0));
    let extreme = LocalZ { x: i64::MIN, z: i64::MIN };
    assert_eq!(
        direction_from_camera(keys(true, false, true, false), extreme),
        (-2 * (i64::MIN as i128), 0)
    );
}

#[test]
fn camera_relative_forward_moves_against_local_z() {
    let mut pose = standing_at(0, 2_000_000, 0);
    let local_z = LocalZ { x: 0, z: 1_000_000 };
    pose.advance(MoveMode::CameraRelative(local_z), keys(true, false, false, false), 100_000);
    assert_eq!(pose.position, Position { x: 0, y: 2_000_000, z: -500_000 });
    assert_eq!(pose.vertical_velocity, 0);
}

#[test]
fn camera_relative_strafe_right_is_a_quarter_turn_from_forward() {
    let mut pose = standing_at(0, 2_000_000, 0);
    let local_z = LocalZ { x: 0, z: 1_000_000 };
    pose.advance(MoveMode::CameraRelative(local_z), keys(false, false, false, true), 100_000);
    assert_eq!(pose.position, Position { x: 500_000, y: 2_000_000, z: 0 });
}

#[test]
fn camera_relative_travel_rounds_toward_zero() {
    let local_z = LocalZ { x: 707_107, z: -707_107 };
    let mut pose = standing_at(0, 2_000_000, 0);
    pose.advance(MoveMode::CameraRelative(local_z), keys(false, true, false, false), 16_667);
    assert_eq!(pose.position, Position { x: 58_926, y: 2_000_000, z: -58_926 });
}

#[test]
fn camera_relative_diagonal_is_faster() {
    let local_z = LocalZ { x: 0, z: 1_000_000 };
    let mut straight = standing_at(0, 2_000_000, 0);
    straight.advance(MoveMode::CameraRelative(local_z), keys(true, false, false, false), 1_000_000);
    let mut diagonal = standing_at(0, 2_000_000, 0);
    diagonal.advance(MoveMode::CameraRelative(local_z), keys(true, false, false, true), 1_000_000);
    assert_eq!(straight.position, Position { x: 0, y: 2_000_000, z: -5_000_000 });
    assert_eq!(diagonal.position, Position { x: 5_000_000, y: 2_000_000, z: -5_000_000 });
}
