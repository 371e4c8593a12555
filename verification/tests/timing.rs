use gltf_viewer::timer::FrameTimer;

#[test]
fn average_is_exact_mean() {
    let mut t = FrameTimer::new(300);
    t.record(10);
    t.record(20);
    t.record(30);
    assert_eq!(t.len(), 3);
    assert_eq!(t.average(), 20);
}

#[test]
fn average_of_empty_is_zero() {
    let t = FrameTimer::new(300);
    assert_eq!(t.len(), 0);
    assert_eq!(t.average(), 0);
}

#[test]
fn average_rounds_down() {
    let mut t = FrameTimer::new(8);
    t.record(10);
    t.record(15);
    assert_eq!(t.average(), 12);
}

#[test]
fn ring_overwrites_oldest() {
    let mut t = FrameTimer::new(2);
    t.record(10);
    t.record(20);
    t.record(30);
    assert_eq!(t.len(), 2);
    // the window now holds 20 and 30
    assert_eq!(t.average(), 25);
    t.record(50);
    // the window now holds 30 and 50
    assert_eq!(t.average(), 40);
}

#[test]
fn window_never_exceeds_capacity() {
    let mut t = FrameTimer::new(4);
    for i in 0..100u64 {
        t.record(i);
    }
    assert_eq!(t.len(), 4);
    // the last four samples are 96..=99
    assert_eq!(t.average(), (96 + 97 + 98 + 99) / 4);
}
