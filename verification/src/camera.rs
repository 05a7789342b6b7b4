//! Perspective camera parameters.
//!
//! All lengths are stored in tenths of a world unit and all angles in
//! tenths of a degree, so that every field is an exact integer. The
//! floating-point view-projection matrix itself is built outside the
//! library from these fields.

use vstd::prelude::*;

verus! {

/// A point or direction with coordinates in tenths of a world unit.
#[derive(Clone, Copy, PartialEq, Eq, Structural, Debug)]
pub struct Coord3 {
    pub x: i32,
    pub y: i32,
    pub z: i32,
}

/// The camera: a right-handed look-at view composed with a perspective
/// projection. Only the aspect ratio ever changes after construction.
#[derive(Clone, Copy, PartialEq, Eq, Structural, Debug)]
pub struct Camera {
    /// Eye position, tenths of a unit.
    pub eye: Coord3,
    /// Look-at target, tenths of a unit.
    pub target: Coord3,
    /// Up direction, tenths of a unit.
    pub up: Coord3,
    /// Vertical field of view, tenths of a degree.
    pub fov: u32,
    /// Aspect ratio numerator: the surface width in pixels.
    pub aspect_width: u32,
    /// Aspect ratio denominator: the surface height in pixels.
    pub aspect_height: u32,
    /// Near plane distance, tenths of a unit.
    pub znear: u32,
    /// Far plane distance, tenths of a unit.
    pub zfar: u32,
}

/// The camera as first constructed: eye (0, 8, 15), target at the origin,
/// up +Y, a 45 degree field of view, aspect ratio 1, planes 0.1 and 100.
pub open spec fn initial_camera() -> Camera {
    Camera {
        eye: Coord3 { x: 0, y: 80, z: 150 },
        target: Coord3 { x: 0, y: 0, z: 0 },
        up: Coord3 { x: 0, y: 10, z: 0 },
        fov: 450,
        aspect_width: 1,
        aspect_height: 1,
        znear: 1,
        zfar: 1000,
    }
}

impl Camera {
    pub fn new() -> (r: Camera)
        ensures
            r == initial_camera(),
    {
        Camera {
            eye: Coord3 { x: 0, y: 80, z: 150 },
            target: Coord3 { x: 0, y: 0, z: 0 },
            up: Coord3 { x: 0, y: 10, z: 0 },
            fov: 450,
            aspect_width: 1,
            aspect_height: 1,
            znear: 1,
            zfar: 1000,
        }
    }

    /// Record the current surface size; every other parameter is untouched.
    pub fn update_aspect_ratio(&mut self, width: u32, height: u32)
        ensures
            *final(self) == (Camera {
                aspect_width: width,
                aspect_height: height,
                ..*old(self)
            }),
    {
        self.aspect_width = width;
        self.aspect_height = height;
    }
}

} // verus!
