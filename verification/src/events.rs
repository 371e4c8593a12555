//! Translation of window events into controller actions.
//!
//! The host window system's events arrive as tagged variants; each one maps
//! to a semantic operation on the orbit controls. The translator reports
//! whether the render loop should keep running, the new surface size on a
//! resize, and any pan request a right-drag move produced.

use vstd::prelude::*;
use crate::camera::Camera;
use crate::controls::{
    rotate_azimuth,
    rotate_polar,
    zoom_spec,
    CursorPos,
    HeldKeys,
    MouseButtonKind,
    NavState,
    OrbitControls,
    PanDelta,
    CURSOR_LIMIT,
    SCROLL_LIMIT,
};
use crate::math::clamp_spec;

verus! {

/// The keys the viewer reacts to.
#[derive(Clone, Copy, Debug, PartialEq, Eq, Structural)]
pub enum KeyCode {
    W,
    A,
    S,
    D,
    Up,
    Down,
    Left,
    Right,
    Escape,
    Other,
}

/// A surface size in pixels.
#[derive(Clone, Copy, Debug, PartialEq, Eq, Structural)]
pub struct ScreenSize {
    pub width: u32,
    pub height: u32,
}

/// A window event, reduced to the payloads the viewer reads.
#[derive(Clone, Copy, Debug, PartialEq, Eq, Structural)]
pub enum InputEvent {
    /// The window was closed.
    Closed,
    /// The surface was resized.
    Resized(u32, u32),
    /// A mouse button went down.
    MousePressed(MouseButtonKind),
    /// A mouse button went up.
    MouseReleased(MouseButtonKind),
    /// The cursor moved, in whole pixels.
    CursorMoved(i64, i64),
    /// A scroll wheel pixel delta.
    WheelPixels(i64),
    /// A scroll wheel line delta; one line counts as three pixels.
    WheelLines(i64),
    /// A key changed state; the flag is true on press.
    Key(KeyCode, bool),
    /// A file was dropped onto the window; ignored.
    FileDropped,
    /// Anything else; ignored.
    Other,
}

/// The event's payloads are within the controller's accepted ranges.
pub open spec fn event_wf(e: InputEvent) -> bool {
    match e {
        InputEvent::CursorMoved(x, y) => -CURSOR_LIMIT <= x <= CURSOR_LIMIT && -CURSOR_LIMIT <= y
            <= CURSOR_LIMIT,
        InputEvent::WheelPixels(d) => -SCROLL_LIMIT <= d <= SCROLL_LIMIT,
        InputEvent::WheelLines(l) => -349525 <= l <= 349525,
        _ => true,
    }
}

/// What one event asked of the surrounding loop.
#[derive(Clone, Copy, Debug, PartialEq, Eq, Structural)]
pub struct EventOutcome {
    /// False exactly when the loop should stop (close request or Escape).
    pub keep_running: bool,
    /// The new surface size after a non-degenerate resize.
    pub resized: Option<ScreenSize>,
    /// The pan request of a right-drag cursor move.
    pub pan: Option<PanDelta>,
}

/// A key changed state: Escape stops the loop, W/Up, S/Down, A/Left and
/// D/Right drive the four navigation directions, anything else is ignored.
pub fn process_input(controls: &mut OrbitControls, key: KeyCode, pressed: bool) -> (keep: bool)
    requires
        old(controls).wf(),
    ensures
        final(controls).wf(),
        keep == !(key is Escape && pressed),
        key is Escape || key is Other ==> *final(controls) == *old(controls),
        key is W || key is Up ==> *final(controls) == (OrbitControls {
            keys: (HeldKeys { forward: pressed, ..old(controls).keys }),
            ..*old(controls)
        }),
        key is S || key is Down ==> *final(controls) == (OrbitControls {
            keys: (HeldKeys { backward: pressed, ..old(controls).keys }),
            ..*old(controls)
        }),
        key is A || key is Left ==> *final(controls) == (OrbitControls {
            keys: (HeldKeys { left: pressed, ..old(controls).keys }),
            ..*old(controls)
        }),
        key is D || key is Right ==> *final(controls) == (OrbitControls {
            keys: (HeldKeys { right: pressed, ..old(controls).keys }),
            ..*old(controls)
        }),
    {
    match key {
        KeyCode::Escape => !pressed,
        KeyCode::W | KeyCode::Up => {
            controls.process_keyboard(crate::controls::CameraMovement::Forward, pressed);
            true
        },
        KeyCode::S | KeyCode::Down => {
            controls.process_keyboard(crate::controls::CameraMovement::Backward, pressed);
            true
        },
        KeyCode::A | KeyCode::Left => {
            controls.process_keyboard(crate::controls::CameraMovement::Left, pressed);
            true
        },
        KeyCode::D | KeyCode::Right => {
            controls.process_keyboard(crate::controls::CameraMovement::Right, pressed);
            true
        },
        KeyCode::Other => true,
    }
}

/// Apply one window event to the controls, as the event table prescribes:
/// close and Escape stop the loop; a resize with positive dimensions adopts
/// the new aspect ratio and screen size; left/right press and matching
/// release drive the drag state machine; cursor moves rotate or request a
/// pan; wheel deltas zoom, lines counting threefold; navigation keys are
/// recorded; dropped files and unknown events are ignored.
pub fn process_event(controls: &mut OrbitControls, event: &InputEvent) -> (out: EventOutcome)
    requires
        old(controls).wf(),
        event_wf(*event),
    ensures
        final(controls).wf(),
        out.keep_running == !(*event is Closed || (*event matches InputEvent::Key(k, p) && k
            is Escape && p)),
        *event is Closed || *event is FileDropped || *event is Other ==> *final(controls) == *old(
            controls,
        ) && out.resized is None && out.pan is None,
        *event matches InputEvent::Resized(w, h) ==> {
            &&& w > 0 && h > 0 ==> *final(controls) == (OrbitControls {
                camera: (Camera { aspect_w: w, aspect_h: h, ..old(controls).camera }),
                screen_width: w,
                screen_height: h,
                ..*old(controls)
            }) && out.resized == Some((ScreenSize { width: w, height: h }))
            &&& !(w > 0 && h > 0) ==> *final(controls) == *old(controls) && out.resized is None
            &&& out.pan is None
        },
        *event matches InputEvent::MousePressed(b) ==> {
            &&& b is Left ==> *final(controls) == (OrbitControls {
                nav: NavState::Rotating,
                ..*old(controls)
            })
            &&& b is Right ==> *final(controls) == (OrbitControls {
                nav: NavState::Panning,
                ..*old(controls)
            })
            &&& b is Other ==> *final(controls) == *old(controls)
            &&& out.resized is None && out.pan is None
        },
        *event matches InputEvent::MouseReleased(b) ==> {
            &&& (b is Left && old(controls).nav is Rotating) || (b is Right && old(
                controls,
            ).nav is Panning) ==> *final(controls) == (OrbitControls {
                nav: NavState::Idle,
                last_cursor: None,
                ..*old(controls)
            })
            &&& !((b is Left && old(controls).nav is Rotating) || (b is Right && old(
                controls,
            ).nav is Panning)) ==> *final(controls) == *old(controls)
            &&& out.resized is None && out.pan is None
        },
        *event matches InputEvent::CursorMoved(x, y) ==> {
            &&& out.resized is None
            &&& old(controls).nav is Idle ==> *final(controls) == *old(controls) && out.pan
                is None
            &&& !(old(controls).nav is Idle) && old(controls).last_cursor is None
                ==> *final(controls) == (OrbitControls {
                last_cursor: Some((CursorPos { x, y })),
                ..*old(controls)
            }) && out.pan is None
            &&& old(controls).nav is Rotating ==> (old(controls).last_cursor matches Some(c)
                ==> {
                &&& final(controls).azimuth == rotate_azimuth(old(controls).azimuth as int, x - c.x)
                &&& final(controls).polar == rotate_polar(old(controls).polar as int, y - c.y)
                &&& final(controls).last_cursor == Some((CursorPos { x, y }))
                &&& final(controls).target == old(controls).target
                &&& final(controls).radius == old(controls).radius
                &&& final(controls).nav == old(controls).nav
                &&& final(controls).keys == old(controls).keys
                &&& final(controls).camera == old(controls).camera
                &&& final(controls).screen_width == old(controls).screen_width
                &&& final(controls).screen_height == old(controls).screen_height
                &&& out.pan is None
            })
            &&& old(controls).nav is Panning ==> (old(controls).last_cursor matches Some(c)
                ==> {
                &&& *final(controls) == (OrbitControls {
                    last_cursor: Some((CursorPos { x, y })),
                    ..*old(controls)
                })
                &&& out.pan == Some((PanDelta { dx: (x - c.x) as i64, dy: (y - c.y) as i64 }))
            })
        },
        *event matches InputEvent::WheelPixels(d) ==> *final(controls) == (OrbitControls {
            radius: final(controls).radius,
            ..*old(controls)
        }) && final(controls).radius == clamp_spec(
            zoom_spec(old(controls).radius as int, d as int),
            crate::controls::RADIUS_MIN as int,
            crate::controls::RADIUS_MAX as int,
        ) && out.resized is None && out.pan is None,
        *event matches InputEvent::WheelLines(l) ==> *final(controls) == (OrbitControls {
            radius: final(controls).radius,
            ..*old(controls)
        }) && final(controls).radius == clamp_spec(
            zoom_spec(old(controls).radius as int, 3 * l),
            crate::controls::RADIUS_MIN as int,
            crate::controls::RADIUS_MAX as int,
        ) && out.resized is None && out.pan is None,
        *event matches InputEvent::Key(k, p) ==> {
            &&& out.resized is None && out.pan is None
            &&& (k is Escape || k is Other ==> *final(controls) == *old(controls))
            &&& (k is W || k is Up ==> *final(controls) == (OrbitControls {
                keys: (HeldKeys { forward: p, ..old(controls).keys }),
                ..*old(controls)
            }))
            &&& (k is S || k is Down ==> *final(controls) == (OrbitControls {
                keys: (HeldKeys { backward: p, ..old(controls).keys }),
                ..*old(controls)
            }))
            &&& (k is A || k is Left ==> *final(controls) == (OrbitControls {
                keys: (HeldKeys { left: p, ..old(controls).keys }),
                ..*old(controls)
            }))
            &&& (k is D || k is Right ==> *final(controls) == (OrbitControls {
                keys: (HeldKeys { right: p, ..old(controls).keys }),
                ..*old(controls)
            }))
        },
{
    let mut out = EventOutcome { keep_running: true, resized: None, pan: None };
    match *event {
        InputEvent::Closed => {
            out.keep_running = false;
        },
        InputEvent::Resized(w, h) => {
            if w > 0 && h > 0 {
                let _ = controls.camera.update_aspect_ratio(w, h);
                controls.screen_width = w;
                controls.screen_height = h;
                out.resized = Some(ScreenSize { width: w, height: h });
            }
        },
        InputEvent::MousePressed(b) => {
            controls.press_button(b);
        },
        InputEvent::MouseReleased(b) => {
            controls.release_button(b);
        },
        InputEvent::CursorMoved(x, y) => {
            out.pan = controls.handle_mouse_move(x, y);
        },
        InputEvent::WheelPixels(d) => {
            controls.process_mouse_scroll(d);
        },
        InputEvent::WheelLines(l) => {
            controls.process_mouse_scroll(3 * l);
        },
        InputEvent::Key(k, p) => {
            out.keep_running = process_input(controls, k, p);
        },
        InputEvent::FileDropped => {},
        InputEvent::Other => {},
    }
    out
}

} // verus!
