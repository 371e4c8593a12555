use gltf_viewer::fit::{fit_camera_to_bounds, Bounds};
use gltf_viewer::math::{Vec3Fx, ONE};

#[test]
fn fit_unit_cube() {
    // the unit cube from (-1,-1,-1) to (1,1,1) in world units
    let b = Bounds {
        min: Vec3Fx { x: -ONE, y: -ONE, z: -ONE },
        max: Vec3Fx { x: ONE, y: ONE, z: ONE },
    };
    let p = fit_camera_to_bounds(&b);
    assert_eq!(p.target, Vec3Fx { x: 0, y: 0, z: 0 });
    // size is the diagonal 2*sqrt(3), rounded down in length steps
    let diag = 2.0 * 3.0_f64.sqrt();
    let size_units = p.size as f64 / ONE as f64;
    assert!((size_units - diag).abs() < 1e-4);
    // the eye stands at (size/2, size/5, size/2)
    assert_eq!(p.position.x, p.size / 2);
    assert_eq!(p.position.y, p.size / 5);
    assert_eq!(p.position.z, p.size / 2);
    let px = p.position.x as f64 / ONE as f64;
    let py = p.position.y as f64 / ONE as f64;
    assert!((px - 3.0_f64.sqrt()).abs() < 1e-4);
    assert!((py - 2.0 * 3.0_f64.sqrt() / 5.0).abs() < 1e-4);
}

#[test]
fn fit_matches_load_scenario() {
    // a loaded unit cube: the eye is symmetric in x and z and lower in y
    let b = Bounds {
        min: Vec3Fx { x: -ONE, y: -ONE, z: -ONE },
        max: Vec3Fx { x: ONE, y: ONE, z: ONE },
    };
    let p = fit_camera_to_bounds(&b);
    assert_eq!(p.position.x, p.position.z);
    assert!(p.position.y < p.position.x);
    assert_eq!(p.target, Vec3Fx { x: 0, y: 0, z: 0 });
}

#[test]
fn fit_off_center_box() {
    let b = Bounds {
        min: Vec3Fx { x: 0, y: 0, z: 0 },
        max: Vec3Fx { x: 2 * ONE, y: 0, z: 0 },
    };
    let p = fit_camera_to_bounds(&b);
    assert_eq!(p.size, 2 * ONE);
    assert_eq!(p.target, Vec3Fx { x: ONE, y: 0, z: 0 });
    assert_eq!(p.position, Vec3Fx { x: ONE + ONE, y: 2 * ONE / 5, z: ONE });
}

#[test]
fn fit_size_is_integer_square_root() {
    let b = Bounds {
        min: Vec3Fx { x: -ONE, y: -ONE, z: -ONE },
        max: Vec3Fx { x: ONE, y: ONE, z: ONE },
    };
    let p = fit_camera_to_bounds(&b);
    let d = 2 * (ONE as i128);
    let s2 = 3 * d * d;
    let s = p.size as i128;
    assert!(s * s <= s2);
    assert!((s + 1) * (s + 1) > s2);
}
