use first_person_camera::keys::HeldKeys;
use first_person_camera::look::Orientation;
use first_person_camera::look::PointerMotion;
use first_person_camera::movement::LocalZ;
use first_person_camera::movement::MoveMode;
use first_person_camera::pose::CameraPose;
use first_person_camera::pose::Position;

fn start() -> CameraPose {
    CameraPose::new(
        Position { x: -2_000_000, y: 2_000_000, z: 0 },
        Orientation::new(-90_000_000, -26_565_051),
    )
}

#[test]
fn new_pose_is_at_rest() {
    let pose = start();
    assert_eq!(pose.position, Position { x: -2_000_000, y: 2_000_000, z: 0 });
    assert_eq!(pose.orientation, Orientation { yaw: -90_000_000, pitch: -26_565_051 });
    assert_eq!(pose.vertical_velocity, 0);
}

#[test]
fn grounded_at_and_below_the_threshold() {
    let mut pose = start();
    assert!(pose.is_grounded());
    pose.position.y = 2_000_001;
    assert!(!pose.is_grounded());
    pose.position.y = -5;
    assert!(pose.is_grounded());
}

#[test]
fn idle_tick_changes_nothing() {
    let local_z = LocalZ { x: -894_427, z: 0 };
    let idle = HeldKeys::none();
    for dt in [0u32, 1, 16_667, 1_000_000, u32::MAX] {
        for mode in [MoveMode::WorldAxis, MoveMode::CameraRelative(local_z)] {
            let mut pose = start();
            pose.look(&[]);
            pose.advance(mode, idle, dt);
            assert_eq!(pose, start());
        }
    }
}

#[test]
fn idle_tick_in_the_air_changes_nothing_in_world_axis_mode() {
    let airborne = CameraPose {
        position: Position { x: 1, y: 9_000_000, z: 2 },
        orientation: Orientation { yaw: 3, pitch: 4 },
        vertical_velocity: -1_000_000,
    };
    let mut pose = airborne;
    pose.look(&[]);
    pose.advance(MoveMode::WorldAxis, HeldKeys::none(), 16_667);
    assert_eq!(pose, airborne);
}

#[test]
fn exit_key_does_not_move_the_camera() {
    let local_z = LocalZ { x: 0, z: 1_000_000 };
    let exit = HeldKeys { exit: true, ..HeldKeys::none() };
    for mode in [MoveMode::WorldAxis, MoveMode::CameraRelative(local_z)] {
        let mut pose = start();
        pose.advance(mode, exit, 16_667);
        assert_eq!(pose, start());
    }
}

#[test]
fn tick_of_no_length_is_idle_whatever_is_held() {
    let local_z = LocalZ { x: 0, z: 1_000_000 };
    let all = HeldKeys {
        forward: true,
        back: false,
        strafe_left: true,
        strafe_right: false,
        jump: true,
        exit: true,
    };
    let airborne = CameraPose {
        position: Position { x: 1, y: 9_000_000, z: 2 },
        orientation: Orientation { yaw: 3, pitch: 4 },
        vertical_velocity: 5,
    };
    for mode in [MoveMode::WorldAxis, MoveMode::CameraRelative(local_z)] {
        let mut pose = airborne;
        pose.advance(mode, all, 0);
        assert_eq!(pose, airborne);
    }
}

#[test]
fn look_changes_only_the_orientation() {
    let mut pose = start();
    let request = pose.look(&[
        PointerMotion { dx: 50_000_000, dy: 0 },
        PointerMotion { dx: 0, dy: 25_000_000 },
    ]);
    assert!(!request.visible);
    assert!(request.confined);
    assert_eq!(pose.position, start().position);
    assert_eq!(pose.vertical_velocity, 0);
    assert_eq!(pose.orientation, Orientation { yaw: -100_000_000, pitch: -31_565_051 });
}

#[test]
fn look_then_move_in_one_tick() {
    let mut pose = start();
    pose.look(&[PointerMotion { dx: -450_000_000, dy: 0 }]);
    assert_eq!(pose.orientation.yaw, 0);
    let local_z = LocalZ { x: 0, z: 894_427 };
    let forward = HeldKeys { forward: true, ..HeldKeys::none() };
    pose.advance(MoveMode::CameraRelative(local_z), forward, 200_000);
    assert_eq!(pose.position, Position { x: -2_000_000, y: 2_000_000, z: -894_427 });
}
