use gltf_viewer::naming::{decimal_digits, insert_before_last_dot, multishot_names, screenshot_name};

#[test]
fn insert_before_extension() {
    let name = b"a/b.png".to_vec();
    let ins = b"_3".to_vec();
    assert_eq!(insert_before_last_dot(&name, &ins), b"a/b_3.png".to_vec());
}

#[test]
fn insert_appends_without_dot() {
    let name = b"noext".to_vec();
    let ins = b"_3".to_vec();
    assert_eq!(insert_before_last_dot(&name, &ins), b"noext_3".to_vec());
}

#[test]
fn insert_uses_rightmost_dot() {
    let name = b"a.b.c".to_vec();
    let ins = b"_1".to_vec();
    assert_eq!(insert_before_last_dot(&name, &ins), b"a.b_1.c".to_vec());
    let empty = Vec::new();
    assert_eq!(insert_before_last_dot(&empty, &ins), b"_1".to_vec());
}

#[test]
fn decimal_digits_render() {
    assert_eq!(decimal_digits(0), b"0".to_vec());
    assert_eq!(decimal_digits(7), b"7".to_vec());
    assert_eq!(decimal_digits(10), b"10".to_vec());
    assert_eq!(decimal_digits(305), b"305".to_vec());
    assert_eq!(decimal_digits(4294967295), b"4294967295".to_vec());
}

#[test]
fn multishot_naming() {
    let name = b"out.png".to_vec();
    let names = multishot_names(&name, 4);
    assert_eq!(names.len(), 4);
    assert_eq!(names[0], b"out_1.png".to_vec());
    assert_eq!(names[1], b"out_2.png".to_vec());
    assert_eq!(names[2], b"out_3.png".to_vec());
    assert_eq!(names[3], b"out_4.png".to_vec());
}

#[test]
fn shot_name_single() {
    let name = b"shot.png".to_vec();
    assert_eq!(screenshot_name(&name, 12), b"shot_12.png".to_vec());
}
