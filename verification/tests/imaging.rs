use gltf_viewer::pixels::{find_color_type, flip_vertical, PaletteFormat, PixelColor};
use gltf_viewer::viewer::choose_scene;

#[test]
fn flip_two_rows() {
    // a 1x2 RGBA image: the two rows swap
    let pixels = vec![1, 2, 3, 4, 5, 6, 7, 8];
    let flipped = flip_vertical(&pixels, 1, 2);
    assert_eq!(flipped, vec![5, 6, 7, 8, 1, 2, 3, 4]);
}

#[test]
fn flip_keeps_middle_row() {
    // a 2x3 RGBA image: top and bottom rows swap, the middle stays
    let mut pixels = Vec::new();
    for row in 0..3u8 {
        for k in 0..8u8 {
            pixels.push(10 * row + k);
        }
    }
    let flipped = flip_vertical(&pixels, 2, 3);
    for k in 0..8usize {
        assert_eq!(flipped[k], 20 + k as u8);
        assert_eq!(flipped[8 + k], 10 + k as u8);
        assert_eq!(flipped[16 + k], k as u8);
    }
}

#[test]
fn flip_twice_is_identity() {
    let pixels: Vec<u8> = (0..32).collect();
    let once = flip_vertical(&pixels, 2, 4);
    let twice = flip_vertical(&once, 2, 4);
    assert_eq!(twice, pixels);
}

#[test]
fn color_type_mapping() {
    assert_eq!(find_color_type(PixelColor::Rgb8), Ok(PaletteFormat::Rgb));
    assert_eq!(find_color_type(PixelColor::Rgba8), Ok(PaletteFormat::Rgba));
    assert!(find_color_type(PixelColor::Unsupported).is_err());
}

#[test]
fn first_scene_is_chosen() {
    let one = choose_scene(1);
    assert_eq!(one.index, 0);
    assert!(!one.warn_multiple);
    let many = choose_scene(3);
    assert_eq!(many.index, 0);
    assert!(many.warn_multiple);
}
