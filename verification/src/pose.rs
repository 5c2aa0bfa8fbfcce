//! The pose of the camera and the two controllers that change it.

use crate::fixed::saturate;
use crate::fixed::saturated;
use crate::keys::HeldKeys;
use crate::look::CursorRequest;
use crate::look::Orientation;
use crate::look::PointerMotion;
use crate::movement::camera_relative_direction;
use crate::movement::camera_travel;
use crate::movement::direction_from_camera;
use crate::movement::direction_on_world_axes;
use crate::movement::travel_from_camera;
use crate::movement::travel_on_world_axis;
use crate::movement::world_axis_direction;
use crate::movement::world_axis_travel;
use crate::movement::MoveMode;
use crate::vertical::integrate_vertical;
use crate::vertical::integrated;
use crate::vertical::is_grounded;
use crate::vertical::GROUND_THRESHOLD;
use vstd::prelude::*;

verus! {

/// A point in world space. `y` is the height.
#[derive(Clone, Copy, Debug, PartialEq, Eq)]
pub struct Position {
    pub x: i64,
    pub y: i64,
    pub z: i64,
}

/// Where the camera is, where it looks, and how fast it rises or falls.
#[derive(Clone, Copy, Debug, PartialEq, Eq)]
pub struct CameraPose {
    pub position: Position,
    pub orientation: Orientation,
    pub vertical_velocity: i64,
}

impl CameraPose {
    /// The camera stands on the ground.
    pub open spec fn grounded(self) -> bool {
        is_grounded(self.position.y)
    }

    /// The orientation is in range, and a grounded camera has no vertical velocity.
    pub open spec fn wf(self) -> bool {
        &&& self.orientation.wf()
        &&& self.grounded() ==> self.vertical_velocity == 0
    }

    /// The pose after the look controller has applied the pointer-motion
    /// events of one tick. Only the orientation changes.
    pub open spec fn looked(self, motions: Seq<PointerMotion>) -> CameraPose {
        CameraPose { orientation: self.orientation.turned_all(motions), ..self }
    }

    /// The pose after the move controller has run for a tick of `dt`
    /// seconds. A tick of no length changes nothing. In world-axis mode the
    /// position moves along X and Z and nothing else changes. In
    /// camera-relative mode the position moves horizontally by the
    /// camera-relative direction, and height and vertical velocity follow
    /// the vertical integrator. A coordinate that would leave the `i64`
    /// range stops at its end.
    pub open spec fn advanced(self, mode: MoveMode, keys: HeldKeys, dt: u32) -> CameraPose {
        if dt == 0 {
            self
        } else {
            match mode {
                MoveMode::WorldAxis => {
                    let direction = world_axis_direction(keys);
                    CameraPose {
                        position: Position {
                            x: saturated(self.position.x + world_axis_travel(direction.0, dt)),
                            y: self.position.y,
                            z: saturated(self.position.z + world_axis_travel(direction.1, dt)),
                        },
                        ..self
                    }
                },
                MoveMode::CameraRelative(local_z) => {
                    let direction = camera_relative_direction(keys, local_z);
                    let vertical = integrated(
                        self.position.y,
                        self.vertical_velocity,
                        keys.jump,
                        dt,
                    );
                    CameraPose {
                        position: Position {
                            x: saturated(self.position.x + camera_travel(direction.0, dt)),
                            y: vertical.0,
                            z: saturated(self.position.z + camera_travel(direction.1, dt)),
                        },
                        orientation: self.orientation,
                        vertical_velocity: vertical.1,
                    }
                },
            }
        }
    }

    /// The pose after the move controller has run for each of a sequence of
    /// ticks in turn, each tick given by its mode, its held keys and its length.
    pub open spec fn advanced_through(self, ticks: Seq<(MoveMode, HeldKeys, u32)>) -> CameraPose
        decreases ticks.len(),
    {
        if ticks.len() == 0 {
            self
        } else {
            let tick = ticks.last();
            self.advanced_through(ticks.drop_last()).advanced(tick.0, tick.1, tick.2)
        }
    }

    /// A camera at rest at `position`, looking along `orientation`.
    pub fn new(position: Position, orientation: Orientation) -> (pose: CameraPose)
        ensures
            pose.position == position,
            pose.orientation == orientation,
            pose.vertical_velocity == 0,
            orientation.wf() ==> pose.wf(),
    {
        CameraPose { position, orientation, vertical_velocity: 0 }
    }

    /// Whether the camera stands on the ground.
    pub fn is_grounded(&self) -> (grounded: bool)
        ensures
            grounded == self.grounded(),
    {
        self.position.y <= GROUND_THRESHOLD
    }

    /// The look controller: applies the pointer-motion events of one tick, in
    /// order, to the orientation, and asks for the pointer to be hidden and
    /// confined to the window.
    pub fn look(&mut self, motions: &[PointerMotion]) -> (request: CursorRequest)
        ensures
            *final(self) == old(self).looked(motions@),
            old(self).wf() ==> final(self).wf(),
            !request.visible,
            request.confined,
    {
        let mut orientation: Orientation = self.orientation;
        let request: CursorRequest = orientation.look(motions);
        self.orientation = orientation;
        request
    }

    /// The move controller: moves the camera for a tick of `dt` seconds
    /// according to the held keys.
    pub fn advance(&mut self, mode: MoveMode, keys: HeldKeys, dt: u32)
        ensures
            *final(self) == old(self).advanced(mode, keys, dt),
            old(self).wf() ==> final(self).wf(),
            dt == 0 ==> *final(self) == *old(self),
    {
        if dt == 0 {
            return ;
        }
        match mode {
            MoveMode::WorldAxis => {
                let direction: (i8, i8) = direction_on_world_axes(keys);
                let x: i64 = saturate(
                    self.position.x as i128 + travel_on_world_axis(direction.0, dt),
                );
                let z: i64 = saturate(
                    self.position.z as i128 + travel_on_world_axis(direction.1, dt),
                );
                self.position.x = x;
                self.position.z = z;
            },
            MoveMode::CameraRelative(local_z) => {
                let direction: (i128, i128) = direction_from_camera(keys, local_z);
                let vertical: (i64, i64) = integrate_vertical(
                    self.position.y,
                    self.vertical_velocity,
                    keys.jump,
                    dt,
                );
                let x: i64 = saturate(
                    self.position.x as i128 + travel_from_camera(direction.0, dt),
                );
                let z: i64 = saturate(
                    self.position.z as i128 + travel_from_camera(direction.1, dt),
                );
                self.position.x = x;
                self.position.y = vertical.0;
                self.position.z = z;
                self.vertical_velocity = vertical.1;
            },
        }
    }
}

} // verus!
