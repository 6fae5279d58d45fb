//! The values that travel between the G-code processor and the motion
//! controller. Lengths, coordinates and speeds are fixed-point millionths
//! (see `decimal`).
use vstd::prelude::*;

verus! {

/// One of the three machine axes.
#[derive(Clone, Copy, Debug, PartialEq, Eq, Hash, Structural)]
pub enum Axis {
    X,
    Y,
    Z,
}

/// A value for every axis, in millionths.
#[derive(Clone, Copy, Debug, PartialEq, Eq, Structural)]
pub struct Vector {
    pub x: i64,
    pub y: i64,
    pub z: i64,
}

impl Vector {
    pub open spec fn at(self, axis: Axis) -> i64 {
        match axis {
            Axis::X => self.x,
            Axis::Y => self.y,
            Axis::Z => self.z,
        }
    }

    pub open spec fn with(self, axis: Axis, val: i64) -> Vector {
        match axis {
            Axis::X => Vector { x: val, ..self },
            Axis::Y => Vector { y: val, ..self },
            Axis::Z => Vector { z: val, ..self },
        }
    }

    pub fn new(x: i64, y: i64, z: i64) -> (r: Self)
        ensures
            r == (Vector { x, y, z }),
    {
        Vector { x, y, z }
    }

    pub fn get(&self, axis: &Axis) -> (r: i64)
        ensures
            r == self.at(*axis),
    {
        match axis {
            Axis::X => self.x,
            Axis::Y => self.y,
            Axis::Z => self.z,
        }
    }

    pub fn set(&mut self, axis: &Axis, val: i64)
        ensures
            *final(self) == old(self).with(*axis, val),
    {
        match axis {
            Axis::X => self.x = val,
            Axis::Y => self.y = val,
            Axis::Z => self.z = val,
        }
    }
}

/// Direction of a stepper motor's rotation.
#[derive(Clone, Copy, Debug, PartialEq, Eq, Structural)]
pub enum StepperDirection {
    Cw,
    Ccw,
}

/// Which rotation of an axis's motor moves the axis in each direction.
#[derive(Clone, Copy, Debug, PartialEq, Eq, Structural)]
pub struct DirectionsMapping {
    pub positive: StepperDirection,
    pub negative: StepperDirection,
}

/// The pins and timing of one stepper motor driver.
#[derive(Clone, Copy, Debug, PartialEq, Eq, Structural)]
pub struct PicoStepperConfig {
    pub enable_pin: u32,
    pub step_pin: u32,
    pub dir_pin: u32,
    pub hold_time_us: u32,
}

/// Hardware parameters of one axis.
#[derive(Clone, Copy, Debug, PartialEq, Eq, Structural)]
pub struct AxisConfig {
    pub stepper_config: PicoStepperConfig,
    /// Distance of one step, in millionths.
    pub step_length: i64,
    pub directions_mapping: DirectionsMapping,
}

/// Hardware parameters of every axis.
#[derive(Clone, Copy, Debug, PartialEq, Eq, Structural)]
pub struct AxesConfig {
    pub x: AxisConfig,
    pub y: AxisConfig,
    pub z: AxisConfig,
}

/// A request to the motion controller.
#[derive(Clone, Copy, Debug, PartialEq, Eq, Structural)]
pub enum MovementApiRequest {
    Config { axes_configs: AxesConfig },
    /// Move by `destination`, a displacement, at `speed`.
    LinearMovement { destination: Vector, speed: i64 },
    RotationalMovement { destination: Vector, rotation_center: Vector, angle: i64, speed: i64 },
}

/// Outcome that the controller reports.
#[derive(Clone, Copy, Debug, PartialEq, Eq, Structural)]
pub enum StatusCode {
    Success,
    Error,
}

/// The controller's answer to one request.
#[derive(Clone, Debug)]
pub struct MovementApiResponse {
    pub status: StatusCode,
    pub message: Option<String>,
}

} // verus!
