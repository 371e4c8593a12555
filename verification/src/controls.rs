//! Orbit camera controller.
//!
//! The camera eye revolves on a sphere around a target point. The pose is
//! kept in spherical form — azimuth and polar angles in angle steps, radius
//! in length steps — together with a Cartesian target, so every update is
//! exact integer arithmetic. The Cartesian eye position and the view-space
//! basis vectors are trigonometric work done outside the library; where an
//! update needs a basis vector (panning, strafing), the caller supplies it
//! and the controller states exactly how it is applied.

use vstd::prelude::*;
use vstd::arithmetic::div_mod::{
    lemma_add_mod_noop,
    lemma_add_mod_noop_right,
    lemma_div_is_ordered,
    lemma_div_is_ordered_by_denominator,
    lemma_div_multiples_vanish,
    lemma_fundamental_div_mod,
    lemma_mod_multiples_vanish,
    lemma_small_mod,
};
use vstd::arithmetic::mul::{lemma_mul_inequality, lemma_mul_nonnegative, lemma_mul_upper_bound};
use crate::camera::{Camera, ConfigError};
use crate::math::{
    clamp_spec,
    wrap_turn,
    clamp_i64,
    wrap_angle,
    Vec3Fx,
    ONE,
    TURN,
    QUARTER_TURN,
    TURN_SPAN,
};

verus! {

/// Angle steps per cursor step while rotating (about 0.005 radians per
/// pixel).
pub const ROT_SENS: i64 = 3416000;

/// Largest cursor coordinate magnitude the controller accepts.
pub const CURSOR_LIMIT: i64 = 1048576;

/// Largest scroll delta magnitude the controller accepts.
pub const SCROLL_LIMIT: i64 = 1048576;

/// Zoom rational base: one scroll step scales the radius by
/// `ZOOM_BASE / (ZOOM_BASE + ZOOM_SENS)`.
pub const ZOOM_BASE: i64 = 4096;

/// Zoom sensitivity per scroll step.
pub const ZOOM_SENS: i64 = 20;

/// Closest the eye may stand to the target (0.01 world units).
pub const RADIUS_MIN: i64 = 655;

/// Farthest the eye may stand from the target (1 000 000 world units).
pub const RADIUS_MAX: i64 = 65536000000;

/// The target stays within this cube around the origin.
pub const TARGET_LIMIT: i64 = 65536000000;

/// Keyboard navigation speed, in length steps per second (3 world units/s).
pub const MOVE_SPEED: i64 = 196608;

/// Largest frame duration fed to keyboard integration (10 s in nanoseconds).
pub const DT_LIMIT: u64 = 10000000000;

/// Smallest polar angle: the pose is clamped away from the poles.
pub const POLAR_MIN: i64 = 8388608;

/// Largest polar angle (`HALF_TURN - POLAR_MIN`).
pub const POLAR_MAX: i64 = 2139095040;

/// What the controller is doing with the mouse.
#[derive(Clone, Copy, Debug, PartialEq, Eq, Structural)]
pub enum NavState {
    /// No drag in progress.
    Idle,
    /// Left drag: orbiting around the target.
    Rotating,
    /// Right drag: panning eye and target together.
    Panning,
}

/// Mouse buttons the controller distinguishes.
#[derive(Clone, Copy, Debug, PartialEq, Eq, Structural)]
pub enum MouseButtonKind {
    Left,
    Right,
    Other,
}

/// Keyboard navigation directions.
#[derive(Clone, Copy, Debug, PartialEq, Eq, Structural)]
pub enum CameraMovement {
    Forward,
    Backward,
    Left,
    Right,
    Up,
    Down,
}

/// Which navigation keys are currently held.
#[derive(Clone, Copy, Debug, PartialEq, Eq, Structural)]
pub struct HeldKeys {
    pub forward: bool,
    pub backward: bool,
    pub left: bool,
    pub right: bool,
    pub up: bool,
    pub down: bool,
}

impl HeldKeys {
    /// No key held.
    pub fn none_held() -> (k: HeldKeys)
        ensures
            k == (HeldKeys {
                forward: false,
                backward: false,
                left: false,
                right: false,
                up: false,
                down: false,
            }),
    {
        HeldKeys {
            forward: false,
            backward: false,
            left: false,
            right: false,
            up: false,
            down: false,
        }
    }
}

/// A cursor position sample, in whole pixels.
#[derive(Clone, Copy, Debug, PartialEq, Eq, Structural)]
pub struct CursorPos {
    pub x: i64,
    pub y: i64,
}

/// A pan request: the cursor delta of a right-drag move, to be turned into a
/// world-space translation by the caller using the view basis.
#[derive(Clone, Copy, Debug, PartialEq, Eq, Structural)]
pub struct PanDelta {
    pub dx: i64,
    pub dy: i64,
}

/// The per-draw camera bundle: the exact pose and the intrinsic parameters
/// from which the caller builds the view and projection matrices.
#[derive(Clone, Copy, Debug, PartialEq, Eq, Structural)]
pub struct CamParams {
    pub target: Vec3Fx,
    pub radius: i64,
    pub azimuth: i64,
    pub polar: i64,
    pub camera: Camera,
}

/// Azimuth after a rotating drag of `dx` cursor steps.
pub open spec fn rotate_azimuth(az: int, dx: int) -> int {
    wrap_turn(az - dx * (ROT_SENS as int))
}

/// Polar angle after a rotating drag of `dy` cursor steps.
pub open spec fn rotate_polar(po: int, dy: int) -> int {
    clamp_spec(po - dy * (ROT_SENS as int), POLAR_MIN as int, POLAR_MAX as int)
}

/// Radius scale of a scroll of `dy`: multiplied by
/// `ZOOM_BASE / (ZOOM_BASE + dy * ZOOM_SENS)` for `dy >= 0`, and by the
/// reciprocal factor for `dy < 0`, rounding down.
pub open spec fn zoom_spec(r: int, dy: int) -> int {
    if dy >= 0 {
        (r * (ZOOM_BASE as int)) / ((ZOOM_BASE as int) + dy * (ZOOM_SENS as int))
    } else {
        (r * ((ZOOM_BASE as int) + (-dy) * (ZOOM_SENS as int))) / (ZOOM_BASE as int)
    }
}

/// Length steps walked in `dt` nanoseconds of keyboard navigation.
pub open spec fn step_spec(dt: int) -> int {
    (MOVE_SPEED as int) * dt / 1000000000
}

/// A step scaled by a fixed-point direction component, rounding toward zero.
pub open spec fn scale_dir(step: int, c: int) -> int {
    if c >= 0 {
        (step * c) / (ONE as int)
    } else {
        -((step * (-c)) / (ONE as int))
    }
}

/// Net sign of an opposed key pair.
pub open spec fn net_sign(pos: bool, neg: bool) -> int {
    (if pos {
        1int
    } else {
        0int
    }) - (if neg {
        1int
    } else {
        0int
    })
}

/// A value, its negation, or zero, by the sign of `n`.
pub open spec fn signed(n: int, v: int) -> int {
    if n > 0 {
        v
    } else if n < 0 {
        -v
    } else {
        0
    }
}

/// The orbit camera state.
#[derive(Clone, Copy, Debug, PartialEq, Eq, Structural)]
pub struct OrbitControls {
    /// Orbit pivot / look-at point.
    pub target: Vec3Fx,
    /// Eye distance from the target, in length steps.
    pub radius: i64,
    /// Horizontal orbit angle, in `[0, TURN)`.
    pub azimuth: i64,
    /// Angle from the world up axis, in `[POLAR_MIN, POLAR_MAX]`.
    pub polar: i64,
    /// Current drag mode.
    pub nav: NavState,
    /// Cursor position at the previous drag sample; cleared between drags.
    pub last_cursor: Option<CursorPos>,
    /// Navigation keys currently held.
    pub keys: HeldKeys,
    /// Intrinsic camera parameters.
    pub camera: Camera,
    /// Viewport width, in pixels.
    pub screen_width: u32,
    /// Viewport height, in pixels.
    pub screen_height: u32,
}

impl OrbitControls {
    /// The controller state is well formed: the pose is within its bounds
    /// and no stale cursor sample survives outside a drag.
    pub open spec fn wf(self) -> bool {
        &&& 0 <= self.azimuth < TURN
        &&& POLAR_MIN <= self.polar <= POLAR_MAX
        &&& RADIUS_MIN <= self.radius <= RADIUS_MAX
        &&& -TARGET_LIMIT <= self.target.x <= TARGET_LIMIT
        &&& -TARGET_LIMIT <= self.target.y <= TARGET_LIMIT
        &&& -TARGET_LIMIT <= self.target.z <= TARGET_LIMIT
        &&& self.camera.wf()
        &&& (self.nav is Idle ==> self.last_cursor is None)
        &&& (self.last_cursor matches Some(c) ==> -CURSOR_LIMIT <= c.x <= CURSOR_LIMIT
            && -CURSOR_LIMIT <= c.y <= CURSOR_LIMIT)
    }

    /// A neutral pose: eye two world units in front of the origin, idle, no
    /// key held, default camera with the viewport's aspect ratio.
    pub fn new(width: u32, height: u32) -> (c: OrbitControls)
        ensures
            c.wf(),
            c.target == (Vec3Fx { x: 0, y: 0, z: 0 }),
            c.radius == 2 * ONE,
            c.azimuth == QUARTER_TURN,
            c.polar == QUARTER_TURN,
            c.nav is Idle,
            c.last_cursor is None,
            c.keys == (HeldKeys {
                forward: false,
                backward: false,
                left: false,
                right: false,
                up: false,
                down: false,
            }),
            c.camera.fovy == crate::math::EIGHTH_TURN,
            width > 0 && height > 0 ==> c.camera.aspect_w == width && c.camera.aspect_h
                == height,
            !(width > 0 && height > 0) ==> c.camera.aspect_w == 1 && c.camera.aspect_h == 1,
            c.screen_width == width,
            c.screen_height == height,
    {
        let mut camera = Camera::new();
        if width > 0 && height > 0 {
            let _ = camera.update_aspect_ratio(width, height);
        }
        OrbitControls {
            target: Vec3Fx::zero(),
            radius: 2 * ONE,
            azimuth: QUARTER_TURN,
            polar: QUARTER_TURN,
            nav: NavState::Idle,
            last_cursor: None,
            keys: HeldKeys::none_held(),
            camera,
            screen_width: width,
            screen_height: height,
        }
    }

    /// A mouse button went down: the left button starts rotating, the right
    /// button starts panning, any other button is ignored.
    pub fn press_button(&mut self, button: MouseButtonKind)
        requires
            old(self).wf(),
        ensures
            final(self).wf(),
            button is Left ==> *final(self) == (OrbitControls {
                nav: NavState::Rotating,
                ..*old(self)
            }),
            button is Right ==> *final(self) == (OrbitControls {
                nav: NavState::Panning,
                ..*old(self)
            }),
            button is Other ==> *final(self) == *old(self),
    {
        match button {
            MouseButtonKind::Left => {
                self.nav = NavState::Rotating;
            },
            MouseButtonKind::Right => {
                self.nav = NavState::Panning;
            },
            MouseButtonKind::Other => {},
        }
    }

    /// End of a drag: forget the previous cursor sample, so the next drag's
    /// first move is suppressed again.
    pub fn handle_mouse_up(&mut self)
        requires
            old(self).wf(),
        ensures
            final(self).wf(),
            *final(self) == (OrbitControls { last_cursor: None, ..*old(self) }),
    {
        self.last_cursor = None;
    }

    /// A mouse button went up: only the release that matches the current
    /// drag mode ends it; anything else is ignored.
    pub fn release_button(&mut self, button: MouseButtonKind)
        requires
            old(self).wf(),
        ensures
            final(self).wf(),
            (button is Left && old(self).nav is Rotating) || (button is Right && old(
                self,
            ).nav is Panning) ==> *final(self) == (OrbitControls {
                nav: NavState::Idle,
                last_cursor: None,
                ..*old(self)
            }),
            !((button is Left && old(self).nav is Rotating) || (button is Right && old(
                self,
            ).nav is Panning)) ==> *final(self) == *old(self),
    {
        let ends = match (button, self.nav) {
            (MouseButtonKind::Left, NavState::Rotating) => true,
            (MouseButtonKind::Right, NavState::Panning) => true,
            _ => false,
        };
        if ends {
            self.last_cursor = None;
            self.nav = NavState::Idle;
        }
    }

    /// Record whether a navigation key is held.
    pub fn process_keyboard(&mut self, dir: CameraMovement, pressed: bool)
        requires
            old(self).wf(),
        ensures
            final(self).wf(),
            dir is Forward ==> *final(self) == (OrbitControls {
                keys: (HeldKeys { forward: pressed, ..old(self).keys }),
                ..*old(self)
            }),
            dir is Backward ==> *final(self) == (OrbitControls {
                keys: (HeldKeys { backward: pressed, ..old(self).keys }),
                ..*old(self)
            }),
            dir is Left ==> *final(self) == (OrbitControls {
                keys: (HeldKeys { left: pressed, ..old(self).keys }),
                ..*old(self)
            }),
            dir is Right ==> *final(self) == (OrbitControls {
                keys: (HeldKeys { right: pressed, ..old(self).keys }),
                ..*old(self)
            }),
            dir is Up ==> *final(self) == (OrbitControls {
                keys: (HeldKeys { up: pressed, ..old(self).keys }),
                ..*old(self)
            }),
            dir is Down ==> *final(self) == (OrbitControls {
                keys: (HeldKeys { down: pressed, ..old(self).keys }),
                ..*old(self)
            }),
    {
        match dir {
            CameraMovement::Forward => self.keys.forward = pressed,
            CameraMovement::Backward => self.keys.backward = pressed,
            CameraMovement::Left => self.keys.left = pressed,
            CameraMovement::Right => self.keys.right = pressed,
            CameraMovement::Up => self.keys.up = pressed,
            CameraMovement::Down => self.keys.down = pressed,
        }
    }

    /// The camera bundle for one draw: a value snapshot of the pose.
    pub fn camera_params(&self) -> (p: CamParams)
        ensures
            p == (CamParams {
                target: self.target,
                radius: self.radius,
                azimuth: self.azimuth,
                polar: self.polar,
                camera: self.camera,
            }),
    {
        CamParams {
            target: self.target,
            radius: self.radius,
            azimuth: self.azimuth,
            polar: self.polar,
            camera: self.camera,
        }
    }

    /// Shift the target (and with it the eye) by a world-space vector,
    /// clamped to the world cube. Used for panning, with the vector built
    /// by the caller from the pan delta and the view basis.
    pub fn translate(&mut self, dx: i64, dy: i64, dz: i64)
        requires
            old(self).wf(),
            -TARGET_LIMIT <= dx <= TARGET_LIMIT,
            -TARGET_LIMIT <= dy <= TARGET_LIMIT,
            -TARGET_LIMIT <= dz <= TARGET_LIMIT,
        ensures
            final(self).wf(),
            *final(self) == (OrbitControls { target: final(self).target, ..*old(self) }),
            final(self).target.x == clamp_spec(
                old(self).target.x + dx,
                -TARGET_LIMIT as int,
                TARGET_LIMIT as int,
            ),
            final(self).target.y == clamp_spec(
                old(self).target.y + dy,
                -TARGET_LIMIT as int,
                TARGET_LIMIT as int,
            ),
            final(self).target.z == clamp_spec(
                old(self).target.z + dz,
                -TARGET_LIMIT as int,
                TARGET_LIMIT as int,
            ),
    {
        self.target = Vec3Fx {
            x: clamp_i64(self.target.x + dx, -TARGET_LIMIT, TARGET_LIMIT),
            y: clamp_i64(self.target.y + dy, -TARGET_LIMIT, TARGET_LIMIT),
            z: clamp_i64(self.target.z + dz, -TARGET_LIMIT, TARGET_LIMIT),
        };
    }

    /// Azimuthal rotation of the eye around the target about the world up
    /// axis; the multi-shot capture spins the scene with it.
    pub fn rotate_object(&mut self, angle: i64)
        requires
            old(self).wf(),
            -TURN <= angle <= TURN,
        ensures
            final(self).wf(),
            *final(self) == (OrbitControls { azimuth: final(self).azimuth, ..*old(self) }),
            final(self).azimuth == wrap_turn(old(self).azimuth + angle),
    {
        self.azimuth = wrap_angle(self.azimuth + angle);
    }

    /// Adopt a pose supplied in spherical form, clamping every component
    /// into its valid range.
    pub fn set_pose(&mut self, target: Vec3Fx, radius: i64, azimuth: i64, polar: i64)
        requires
            old(self).wf(),
            -TURN_SPAN <= azimuth < TURN_SPAN,
        ensures
            final(self).wf(),
            *final(self) == (OrbitControls {
                target: final(self).target,
                radius: final(self).radius,
                azimuth: final(self).azimuth,
                polar: final(self).polar,
                ..*old(self)
            }),
            final(self).target.x == clamp_spec(
                target.x as int,
                -TARGET_LIMIT as int,
                TARGET_LIMIT as int,
            ),
            final(self).target.y == clamp_spec(
                target.y as int,
                -TARGET_LIMIT as int,
                TARGET_LIMIT as int,
            ),
            final(self).target.z == clamp_spec(
                target.z as int,
                -TARGET_LIMIT as int,
                TARGET_LIMIT as int,
            ),
            final(self).radius == clamp_spec(radius as int, RADIUS_MIN as int, RADIUS_MAX as int),
            final(self).azimuth == wrap_turn(azimuth as int),
            final(self).polar == clamp_spec(polar as int, POLAR_MIN as int, POLAR_MAX as int),
    {
        self.target = Vec3Fx {
            x: clamp_i64(target.x, -TARGET_LIMIT, TARGET_LIMIT),
            y: clamp_i64(target.y, -TARGET_LIMIT, TARGET_LIMIT),
            z: clamp_i64(target.z, -TARGET_LIMIT, TARGET_LIMIT),
        };
        self.radius = clamp_i64(radius, RADIUS_MIN, RADIUS_MAX);
        self.azimuth = wrap_angle(azimuth);
        self.polar = clamp_i64(polar, POLAR_MIN, POLAR_MAX);
    }

    /// Adopt a document camera node: copy its intrinsic parameters and take
    /// the pose its world transform decomposes to (the decomposition is the
    /// caller's trigonometric work). A node whose parameters are out of
    /// range is rejected and changes nothing.
    pub fn set_camera(
        &mut self,
        camera: &Camera,
        target: Vec3Fx,
        radius: i64,
        azimuth: i64,
        polar: i64,
    ) -> (r: Result<(), ConfigError>)
        requires
            old(self).wf(),
            -TURN_SPAN <= azimuth < TURN_SPAN,
        ensures
            final(self).wf(),
            r is Ok <==> camera.wf(),
            r is Err ==> *final(self) == *old(self) && r == Err::<(), ConfigError>(
                ConfigError::InvalidConfig,
            ),
            r is Ok ==> {
                &&& *final(self) == (OrbitControls {
                    camera: *camera,
                    target: final(self).target,
                    radius: final(self).radius,
                    azimuth: final(self).azimuth,
                    polar: final(self).polar,
                    ..*old(self)
                })
                &&& final(self).target.x == clamp_spec(
                    target.x as int,
                    -TARGET_LIMIT as int,
                    TARGET_LIMIT as int,
                )
                &&& final(self).target.y == clamp_spec(
                    target.y as int,
                    -TARGET_LIMIT as int,
                    TARGET_LIMIT as int,
                )
                &&& final(self).target.z == clamp_spec(
                    target.z as int,
                    -TARGET_LIMIT as int,
                    TARGET_LIMIT as int,
                )
                &&& final(self).radius == clamp_spec(
                    radius as int,
                    RADIUS_MIN as int,
                    RADIUS_MAX as int,
                )
                &&& final(self).azimuth == wrap_turn(azimuth as int)
                &&& final(self).polar == clamp_spec(
                    polar as int,
                    POLAR_MIN as int,
                    POLAR_MAX as int,
                )
            },
    {
        let valid = 0 < camera.fovy && camera.fovy < crate::math::HALF_TURN && camera.aspect_w > 0
            && camera.aspect_h > 0 && 0 < camera.znear && camera.znear < camera.zfar;
        if !valid {
            return Err(ConfigError::InvalidConfig);
        }
        self.camera = *camera;
        self.set_pose(target, radius, azimuth, polar);
        Ok(())
    }
}

/// The rotation sensitivity applied to a cursor delta, exactly.
fn scaled_rot(d: i64) -> (r: i64)
    requires
        -2097152 <= d <= 2097152,
    ensures
        r as int == d * (ROT_SENS as int),
{
    proof {
        assert(-2097152int * 3416000 <= d * 3416000 <= 2097152int * 3416000)
            by (nonlinear_arith)
            requires
                -2097152 <= d <= 2097152,
        ;
    }
    d * ROT_SENS
}

/// The zoomed radius, already clamped into the valid range.
fn zoom_radius(radius: i64, dy: i64) -> (z: i64)
    requires
        RADIUS_MIN <= radius <= RADIUS_MAX,
        -SCROLL_LIMIT <= dy <= SCROLL_LIMIT,
    ensures
        z as int == clamp_spec(
            zoom_spec(radius as int, dy as int),
            RADIUS_MIN as int,
            RADIUS_MAX as int,
        ),
        RADIUS_MIN <= z <= RADIUS_MAX,
{
    if dy >= 0 {
        proof {
            lemma_mul_nonnegative(radius as int, ZOOM_BASE as int);
            lemma_mul_upper_bound(radius as int, RADIUS_MAX as int, ZOOM_BASE as int, ZOOM_BASE as int);
            lemma_mul_nonnegative(dy as int, ZOOM_SENS as int);
            lemma_mul_upper_bound(dy as int, SCROLL_LIMIT as int, ZOOM_SENS as int, ZOOM_SENS as int);
        }
        let num: u64 = (radius as u64) * (ZOOM_BASE as u64);
        let den: u64 = (ZOOM_BASE as u64) + (dy as u64) * (ZOOM_SENS as u64);
        proof {
            lemma_div_is_ordered_by_denominator(num as int, 1, den as int);
        }
        let q: u64 = num / den;
        clamp_i64(q as i64, RADIUS_MIN, RADIUS_MAX)
    } else {
        let mag: u64 = (-dy) as u64;
        proof {
            lemma_mul_nonnegative(mag as int, ZOOM_SENS as int);
            lemma_mul_upper_bound(mag as int, SCROLL_LIMIT as int, ZOOM_SENS as int, ZOOM_SENS as int);
        }
        let factor: u64 = (ZOOM_BASE as u64) + mag * (ZOOM_SENS as u64);
        proof {
            lemma_mul_nonnegative(radius as int, factor as int);
            lemma_mul_upper_bound(radius as int, RADIUS_MAX as int, factor as int, 20975616);
        }
        let num: u64 = (radius as u64) * factor;
        proof {
            lemma_div_is_ordered(num as int, 65536000000int * 20975616, ZOOM_BASE as int);
        }
        let q: u64 = num / (ZOOM_BASE as u64);
        clamp_i64(q as i64, RADIUS_MIN, RADIUS_MAX)
    }
}

/// Length steps walked in one frame of keyboard navigation.
fn nav_step(dt_nanos: u64) -> (s: i64)
    requires
        dt_nanos <= DT_LIMIT,
    ensures
        s as int == step_spec(dt_nanos as int),
        0 <= s <= 1966080,
{
    proof {
        lemma_mul_nonnegative(MOVE_SPEED as int, dt_nanos as int);
        lemma_mul_upper_bound(MOVE_SPEED as int, MOVE_SPEED as int, dt_nanos as int, DT_LIMIT as int);
    }
    let prod: u64 = (MOVE_SPEED as u64) * dt_nanos;
    proof {
        lemma_div_is_ordered(prod as int, 196608int * 10000000000, 1000000000int);
    }
    let q: u64 = prod / 1000000000;
    q as i64
}

/// A step scaled by a fixed-point direction component.
fn scale_step(step: i64, c: i64) -> (r: i64)
    requires
        0 <= step <= 1966080,
        -ONE <= c <= ONE,
    ensures
        r as int == scale_dir(step as int, c as int),
        -step <= r <= step,
{
    if c >= 0 {
        proof {
            lemma_mul_nonnegative(step as int, c as int);
            lemma_mul_inequality(c as int, ONE as int, step as int);
            lemma_div_is_ordered(step as int * c as int, ONE as int * step as int, ONE as int);
            lemma_div_multiples_vanish(step as int, ONE as int);
        }
        let q: u64 = ((step as u64) * (c as u64)) / 65536;
        q as i64
    } else {
        let mag: i64 = -c;
        proof {
            lemma_mul_nonnegative(step as int, mag as int);
            lemma_mul_inequality(mag as int, ONE as int, step as int);
            lemma_div_is_ordered(step as int * mag as int, ONE as int * step as int, ONE as int);
            lemma_div_multiples_vanish(step as int, ONE as int);
        }
        let q: u64 = ((step as u64) * (mag as u64)) / 65536;
        -(q as i64)
    }
}

impl OrbitControls {
    /// Consume one cursor sample. Outside a drag it is ignored; the first
    /// sample of a drag is only recorded, never applied, so a drag cannot
    /// open with a jump; afterwards the cursor delta rotates the pose (left
    /// drag) or is handed back as a pan request (right drag).
    pub fn handle_mouse_move(&mut self, x: i64, y: i64) -> (pan: Option<PanDelta>)
        requires
            old(self).wf(),
            -CURSOR_LIMIT <= x <= CURSOR_LIMIT,
            -CURSOR_LIMIT <= y <= CURSOR_LIMIT,
        ensures
            final(self).wf(),
            old(self).nav is Idle ==> *final(self) == *old(self) && pan is None,
            !(old(self).nav is Idle) && old(self).last_cursor is None ==> *final(self)
                == (OrbitControls {
                last_cursor: Some((CursorPos { x, y })),
                ..*old(self)
            }) && pan is None,
            old(self).nav is Rotating ==> (old(self).last_cursor matches Some(c) ==> {
                &&& final(self).azimuth == rotate_azimuth(old(self).azimuth as int, x - c.x)
                &&& final(self).polar == rotate_polar(old(self).polar as int, y - c.y)
                &&& final(self).last_cursor == Some((CursorPos { x, y }))
                &&& final(self).target == old(self).target
                &&& final(self).radius == old(self).radius
                &&& final(self).nav == old(self).nav
                &&& final(self).keys == old(self).keys
                &&& final(self).camera == old(self).camera
                &&& final(self).screen_width == old(self).screen_width
                &&& final(self).screen_height == old(self).screen_height
                &&& pan is None
            }),
            old(self).nav is Panning ==> (old(self).last_cursor matches Some(c) ==> {
                &&& *final(self) == (OrbitControls {
                    last_cursor: Some((CursorPos { x, y })),
                    ..*old(self)
                })
                &&& pan == Some((PanDelta { dx: (x - c.x) as i64, dy: (y - c.y) as i64 }))
            }),
    {
        match self.nav {
            NavState::Idle => {
                return None;
            },
            _ => {},
        }
        let (cx, cy): (i64, i64) = match self.last_cursor {
            None => {
                self.last_cursor = Some(CursorPos { x, y });
                return None;
            },
            Some(c) => (c.x, c.y),
        };
        let dx: i64 = x - cx;
        let dy: i64 = y - cy;
        self.last_cursor = Some(CursorPos { x, y });
        match self.nav {
            NavState::Rotating => {
                let da: i64 = scaled_rot(dx);
                let dp: i64 = scaled_rot(dy);
                self.azimuth = wrap_angle(self.azimuth - da);
                self.polar = clamp_i64(self.polar - dp, POLAR_MIN, POLAR_MAX);
                None
            },
            NavState::Panning => Some(PanDelta { dx, dy }),
            NavState::Idle => None,
        }
    }

    /// Zoom: scale the eye distance by the scroll delta, clamped into
    /// `[RADIUS_MIN, RADIUS_MAX]`, keeping the viewing direction.
    pub fn process_mouse_scroll(&mut self, dy: i64)
        requires
            old(self).wf(),
            -SCROLL_LIMIT <= dy <= SCROLL_LIMIT,
        ensures
            final(self).wf(),
            *final(self) == (OrbitControls { radius: final(self).radius, ..*old(self) }),
            final(self).radius == clamp_spec(
                zoom_spec(old(self).radius as int, dy as int),
                RADIUS_MIN as int,
                RADIUS_MAX as int,
            ),
    {
        self.radius = zoom_radius(self.radius, dy);
    }

    /// Integrate the held navigation keys over one frame: forward/backward
    /// dolly the eye along the viewing direction (clamped like a zoom),
    /// up/down shift eye and target along the world up axis, left/right
    /// strafe them along the caller-supplied view-space right axis
    /// (`right_x`, `right_z`, fixed-point with magnitude at most `ONE`).
    pub fn frame_update(&mut self, dt_nanos: u64, right_x: i64, right_z: i64)
        requires
            old(self).wf(),
            dt_nanos <= DT_LIMIT,
            -ONE <= right_x <= ONE,
            -ONE <= right_z <= ONE,
        ensures
            final(self).wf(),
            *final(self) == (OrbitControls {
                target: final(self).target,
                radius: final(self).radius,
                ..*old(self)
            }),
            final(self).radius == clamp_spec(
                old(self).radius - signed(
                    net_sign(old(self).keys.forward, old(self).keys.backward),
                    step_spec(dt_nanos as int),
                ),
                RADIUS_MIN as int,
                RADIUS_MAX as int,
            ),
            final(self).target.x == clamp_spec(
                old(self).target.x + signed(
                    net_sign(old(self).keys.right, old(self).keys.left),
                    scale_dir(step_spec(dt_nanos as int), right_x as int),
                ),
                -TARGET_LIMIT as int,
                TARGET_LIMIT as int,
            ),
            final(self).target.y == clamp_spec(
                old(self).target.y + signed(
                    net_sign(old(self).keys.up, old(self).keys.down),
                    step_spec(dt_nanos as int),
                ),
                -TARGET_LIMIT as int,
                TARGET_LIMIT as int,
            ),
            final(self).target.z == clamp_spec(
                old(self).target.z + signed(
                    net_sign(old(self).keys.right, old(self).keys.left),
                    scale_dir(step_spec(dt_nanos as int), right_z as int),
                ),
                -TARGET_LIMIT as int,
                TARGET_LIMIT as int,
            ),
    {
        let step: i64 = nav_step(dt_nanos);
        let lat_x: i64 = scale_step(step, right_x);
        let lat_z: i64 = scale_step(step, right_z);
        let dolly: i64 = if self.keys.forward && !self.keys.backward {
            step
        } else if self.keys.backward && !self.keys.forward {
            -step
        } else {
            0
        };
        self.radius = clamp_i64(self.radius - dolly, RADIUS_MIN, RADIUS_MAX);
        let sx: i64 = if self.keys.right && !self.keys.left {
            lat_x
        } else if self.keys.left && !self.keys.right {
            -lat_x
        } else {
            0
        };
        let sz: i64 = if self.keys.right && !self.keys.left {
            lat_z
        } else if self.keys.left && !self.keys.right {
            -lat_z
        } else {
            0
        };
        let sy: i64 = if self.keys.up && !self.keys.down {
            step
        } else if self.keys.down && !self.keys.up {
            -step
        } else {
            0
        };
        self.target = Vec3Fx {
            x: clamp_i64(self.target.x + sx, -TARGET_LIMIT, TARGET_LIMIT),
            y: clamp_i64(self.target.y + sy, -TARGET_LIMIT, TARGET_LIMIT),
            z: clamp_i64(self.target.z + sz, -TARGET_LIMIT, TARGET_LIMIT),
        };
    }
}

/// Law: in every well-formed controller state — established by the
/// constructor and preserved by every operation — the eye distance lies
/// within `[RADIUS_MIN, RADIUS_MAX]` and the polar angle away from the
/// poles.
pub proof fn lemma_pose_always_bounded(c: OrbitControls)
    requires
        c.wf(),
    ensures
        RADIUS_MIN <= c.radius <= RADIUS_MAX,
        POLAR_MIN <= c.polar <= POLAR_MAX,
        0 <= c.azimuth < TURN,
{
}

/// Law: a rotating drag followed by the exact inverse drag restores the
/// pose, as long as the polar clamp was not engaged in between.
pub proof fn lemma_rotation_round_trip(az: int, po: int, dx: int, dy: int)
    requires
        0 <= az < TURN,
        POLAR_MIN <= po <= POLAR_MAX,
        POLAR_MIN <= po - dy * (ROT_SENS as int) <= POLAR_MAX,
    ensures
        rotate_azimuth(rotate_azimuth(az, dx), -dx) == az,
        rotate_polar(rotate_polar(po, dy), -dy) == po,
{
    let t = TURN as int;
    let d = dx * (ROT_SENS as int);
    assert((-dx) * (ROT_SENS as int) == -(dx * (ROT_SENS as int))) by (nonlinear_arith);
    assert((-dy) * (ROT_SENS as int) == -(dy * (ROT_SENS as int))) by (nonlinear_arith);
    lemma_add_mod_noop(az - d, d, t);
    lemma_add_mod_noop_right((az - d) % t, d, t);
    lemma_small_mod(az as nat, t as nat);
}

/// The azimuth after `n` equal spins of the scene.
pub open spec fn spin_azimuth(az: int, angle: int, n: nat) -> int
    decreases n,
{
    if n == 0 {
        az
    } else {
        wrap_turn(spin_azimuth(az, angle, (n - 1) as nat) + angle)
    }
}

/// Repeated spinning accumulates: `n` spins by `angle` land on
/// `az + n * angle`, reduced into `[0, TURN)`.
pub proof fn lemma_spin_accumulates(az: int, angle: int, n: nat)
    requires
        0 <= az < TURN,
    ensures
        spin_azimuth(az, angle, n) == wrap_turn(az + n * angle),
    decreases n,
{
    let t = TURN as int;
    if n == 0 {
        lemma_small_mod(az as nat, t as nat);
    } else {
        let m = (n - 1) as nat;
        lemma_spin_accumulates(az, angle, m);
        assert(m * angle + angle == n * angle) by (nonlinear_arith)
            requires
                m == n - 1,
        ;
        lemma_add_mod_noop(az + m * angle, angle, t);
        lemma_add_mod_noop_right((az + m * angle) % t, angle, t);
    }
}

/// Law: spinning the scene `count` times by `TURN / count` returns the
/// azimuth exactly to its starting value, whenever `count` divides `TURN`.
pub proof fn lemma_full_circle(az: int, count: nat)
    requires
        0 <= az < TURN,
        count > 0,
        (TURN as int) % (count as int) == 0,
    ensures
        spin_azimuth(az, (TURN as int) / (count as int), count) == az,
{
    let t = TURN as int;
    let c = count as int;
    let a = t / c;
    lemma_spin_accumulates(az, a, count);
    lemma_fundamental_div_mod(t, c);
    assert(c * a == count * a) by (nonlinear_arith)
        requires
            c == count,
    ;
    lemma_mod_multiples_vanish(1, az, t);
    lemma_small_mod(az as nat, t as nat);
}

/// Law: of two zoom-in scrolls from the same state, the larger delta leaves
/// the eye at most as far out as the smaller one.
pub proof fn lemma_scroll_monotonic(r: int, dy1: int, dy2: int)
    requires
        RADIUS_MIN <= r <= RADIUS_MAX,
        0 < dy2 < dy1,
    ensures
        clamp_spec(zoom_spec(r, dy1), RADIUS_MIN as int, RADIUS_MAX as int) <= clamp_spec(
            zoom_spec(r, dy2),
            RADIUS_MIN as int,
            RADIUS_MAX as int,
        ),
{
    let b = ZOOM_BASE as int;
    let s = ZOOM_SENS as int;
    lemma_mul_nonnegative(r, b);
    lemma_mul_inequality(dy2, dy1, s);
    lemma_mul_nonnegative(dy2, s);
    lemma_div_is_ordered_by_denominator(r * b, b + dy2 * s, b + dy1 * s);
}

} // verus!
