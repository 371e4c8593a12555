//! Viewer start-up decisions.
//!
//! At start-up the viewer either adopts a camera node selected by index
//! from the loaded document or derives a pose from the scene bounds, and
//! maps its failure kinds to process exit codes. The window, GL context
//! and importer themselves live outside the library; these functions settle
//! every choice they depend on.

use vstd::prelude::*;
use crate::math::Vec3Fx;

verus! {

/// The camera-related start-up options.
#[derive(Clone, Copy, Debug, PartialEq, Eq, Structural)]
pub struct CameraOptions {
    /// Index of the document camera node to adopt; negative selects none.
    pub index: i32,
    /// Explicit eye override, honored only when no camera node is selected.
    pub position: Option<Vec3Fx>,
    /// Explicit target override, honored only when no camera node is
    /// selected.
    pub target: Option<Vec3Fx>,
    /// Vertical field of view, in angle steps; always overrides the
    /// camera's own.
    pub fovy: i64,
}

/// How the starting pose is chosen.
#[derive(Clone, Copy, Debug, PartialEq, Eq, Structural)]
pub enum CameraSelection {
    /// Adopt the camera node at `index`; `warn_overrides` reports that
    /// explicit position/target options were supplied and are ignored.
    UseNode { index: usize, warn_overrides: bool },
    /// The requested index names no camera node: the viewer exits.
    OutOfRange,
    /// No node selected: fit the pose to the scene bounds, then apply any
    /// explicit position/target overrides.
    FromBounds,
}

/// Choose the starting pose: a non-negative index adopts that camera
/// node, and one that names no node — the document may have fewer, or
/// none at all — is an error; a negative index selects no node and the
/// pose is fitted to the bounds. Explicit position/target overrides
/// beside a selected node only earn a warning.
pub fn select_camera(n_nodes: usize, opts: &CameraOptions) -> (s: CameraSelection)
    ensures
        opts.index >= 0 && (opts.index as int) < n_nodes ==> s == (CameraSelection::UseNode {
            index: opts.index as usize,
            warn_overrides: opts.position is Some || opts.target is Some,
        }),
        opts.index >= 0 && (opts.index as int) >= n_nodes ==> s is OutOfRange,
        opts.index < 0 ==> s is FromBounds,
{
    if opts.index >= 0 {
        if opts.index as usize >= n_nodes {
            CameraSelection::OutOfRange
        } else {
            CameraSelection::UseNode {
                index: opts.index as usize,
                warn_overrides: opts.position.is_some() || opts.target.is_some(),
            }
        }
    } else {
        CameraSelection::FromBounds
    }
}

/// The starting pose of the no-node path: the fitted values, each replaced
/// by its explicit override when one was given.
#[derive(Clone, Copy, Debug, PartialEq, Eq, Structural)]
pub struct ChosenPose {
    pub position: Vec3Fx,
    pub target: Vec3Fx,
}

/// Resolve the fitted pose against the options: an explicit position or
/// target replaces the fitted one; absent options leave the fit in place.
pub fn resolve_pose_overrides(fitted_position: Vec3Fx, fitted_target: Vec3Fx, opts: &CameraOptions) -> (p: ChosenPose)
    ensures
        opts.position matches Some(v) ==> p.position == v,
        opts.position is None ==> p.position == fitted_position,
        opts.target matches Some(v) ==> p.target == v,
        opts.target is None ==> p.target == fitted_target,
{
    let position = match opts.position {
        Some(v) => v,
        None => fitted_position,
    };
    let target = match opts.target {
        Some(v) => v,
        None => fitted_target,
    };
    ChosenPose { position, target }
}

/// The failures that end the viewer.
#[derive(Clone, Copy, Debug, PartialEq, Eq, Structural)]
pub enum ViewerError {
    /// The document or its buffers could not be imported.
    ImportFailure,
    /// The requested camera index names no camera node.
    InvalidCameraIndex,
}

/// The process exit code of a fatal failure: 1 for a failed import, 2 for
/// a bad camera index.
pub fn exit_code(e: ViewerError) -> (c: i32)
    ensures
        e is ImportFailure <==> c == 1,
        e is InvalidCameraIndex <==> c == 2,
{
    match e {
        ViewerError::ImportFailure => 1,
        ViewerError::InvalidCameraIndex => 2,
    }
}

/// The kinds of importer failure.
#[derive(Clone, Copy, Debug, PartialEq, Eq, Structural)]
pub enum ImportErrorKind {
    /// A file could not be read: a bad path or a missing buffer.
    Io,
    /// The document itself is invalid.
    Document,
}

/// What a failed import reports.
#[derive(Clone, Copy, Debug, PartialEq, Eq, Structural)]
pub struct ImportFailureReport {
    /// The process exit code; a failed import always exits with 1.
    pub exit: i32,
    /// Whether to suggest that the `.bin` files the document references
    /// may be missing; only an I/O failure earns the hint.
    pub hint_missing_bin: bool,
}

/// Decide how a failed import ends the viewer: exit code 1, with the
/// missing-`.bin` hint exactly for I/O failures.
pub fn import_failure_report(kind: ImportErrorKind) -> (r: ImportFailureReport)
    ensures
        r.exit == 1,
        r.hint_missing_bin <==> kind is Io,
{
    ImportFailureReport { exit: 1, hint_missing_bin: matches!(kind, ImportErrorKind::Io) }
}

/// Which document scene is drawn.
#[derive(Clone, Copy, Debug, PartialEq, Eq, Structural)]
pub struct SceneChoice {
    /// Always the first scene.
    pub index: usize,
    /// Whether to warn that further scenes were ignored.
    pub warn_multiple: bool,
}

/// Only the first scene is drawn; more than one earns a warning.
pub fn choose_scene(n_scenes: usize) -> (s: SceneChoice)
    ensures
        s.index == 0,
        s.warn_multiple <==> n_scenes > 1,
{
    SceneChoice { index: 0, warn_multiple: n_scenes > 1 }
}

} // verus!
