use gltf_viewer::camera::{Camera, ConfigError};

#[test]
fn aspect_ratio_follows_viewport() {
    let mut c = Camera::new();
    assert_eq!(c.aspect_w, 1);
    assert_eq!(c.aspect_h, 1);
    assert!(c.update_aspect_ratio(1920, 1080).is_ok());
    assert_eq!(c.aspect_w, 1920);
    assert_eq!(c.aspect_h, 1080);
}

#[test]
fn degenerate_aspect_is_rejected() {
    let mut c = Camera::new();
    assert_eq!(c.update_aspect_ratio(0, 1080), Err(ConfigError::InvalidConfig));
    assert_eq!(c.update_aspect_ratio(1920, 0), Err(ConfigError::InvalidConfig));
    assert_eq!(c.aspect_w, 1);
    assert_eq!(c.aspect_h, 1);
}

#[test]
fn fovy_bounds_are_enforced() {
    let mut c = Camera::new();
    assert!(c.set_fovy(357913941).is_ok()); // 30 degrees
    assert_eq!(c.fovy, 357913941);
    assert_eq!(c.set_fovy(0), Err(ConfigError::InvalidConfig));
    assert_eq!(c.set_fovy(-5), Err(ConfigError::InvalidConfig));
    assert_eq!(c.set_fovy(2147483648), Err(ConfigError::InvalidConfig));
    assert_eq!(c.fovy, 357913941);
}
