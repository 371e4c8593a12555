//! Perspective camera parameters.
//!
//! The camera keeps its field of view as an angle in fixed-point angle steps,
//! its aspect ratio as the exact rational `aspect_w / aspect_h`, and its
//! clipping planes in fixed-point length steps. The projection matrix itself
//! is floating-point work and is built outside the library from these exact
//! parameters.

use vstd::prelude::*;
use crate::math::HALF_TURN;

verus! {

/// Rejection of out-of-range camera parameters.
#[derive(Clone, Copy, Debug, PartialEq, Eq, Structural)]
pub enum ConfigError {
    InvalidConfig,
}

/// Intrinsic camera parameters.
#[derive(Clone, Copy, Debug, PartialEq, Eq, Structural)]
pub struct Camera {
    /// Vertical field of view, in angle steps; strictly between 0 and a half
    /// turn.
    pub fovy: i64,
    /// Aspect ratio numerator (viewport width); positive.
    pub aspect_w: u32,
    /// Aspect ratio denominator (viewport height); positive.
    pub aspect_h: u32,
    /// Near clipping plane, in length steps; positive.
    pub znear: i64,
    /// Far clipping plane, in length steps; beyond the near plane.
    pub zfar: i64,
}

impl Camera {
    /// The parameters describe a usable perspective projection.
    pub open spec fn wf(self) -> bool {
        &&& 0 < self.fovy < HALF_TURN
        &&& self.aspect_w > 0
        &&& self.aspect_h > 0
        &&& 0 < self.znear < self.zfar
    }

    /// A camera looking through a square viewport with a 45-degree field of
    /// view and default clipping planes.
    pub fn new() -> (c: Camera)
        ensures
            c == (Camera {
                fovy: crate::math::EIGHTH_TURN,
                aspect_w: 1,
                aspect_h: 1,
                znear: 655,
                zfar: 65536000,
            }),
            c.wf(),
    {
        Camera {
            fovy: crate::math::EIGHTH_TURN,
            aspect_w: 1,
            aspect_h: 1,
            znear: 655,
            zfar: 65536000,
        }
    }

    /// Adopt the viewport's aspect ratio. A degenerate viewport (zero width
    /// or height) is rejected and leaves the camera unchanged.
    pub fn update_aspect_ratio(&mut self, width: u32, height: u32) -> (r: Result<
        (),
        ConfigError,
    >)
        ensures
            r is Ok <==> width > 0 && height > 0,
            r is Ok ==> *final(self) == (Camera {
                aspect_w: width,
                aspect_h: height,
                ..*old(self)
            }),
            r is Err ==> *final(self) == *old(self) && r == Err::<(), ConfigError>(
                ConfigError::InvalidConfig,
            ),
            old(self).wf() ==> final(self).wf(),
    {
        if width == 0 || height == 0 {
            return Err(ConfigError::InvalidConfig);
        }
        self.aspect_w = width;
        self.aspect_h = height;
        Ok(())
    }

    /// Adopt a vertical field of view. Values outside `(0, HALF_TURN)` are
    /// rejected and leave the camera unchanged.
    pub fn set_fovy(&mut self, fovy: i64) -> (r: Result<(), ConfigError>)
        ensures
            r is Ok <==> 0 < fovy < HALF_TURN,
            r is Ok ==> *final(self) == (Camera { fovy, ..*old(self) }),
            r is Err ==> *final(self) == *old(self) && r == Err::<(), ConfigError>(
                ConfigError::InvalidConfig,
            ),
            old(self).wf() ==> final(self).wf(),
    {
        if fovy <= 0 || fovy >= HALF_TURN {
            return Err(ConfigError::InvalidConfig);
        }
        self.fovy = fovy;
        Ok(())
    }
}

} // verus!
