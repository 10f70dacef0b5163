use ascii_video::classify::{
    brightness_to_ascii, pixel_to_ascii, ramp_glyph, rgb_to_brightness, MAX_LUMA, RAMP_LENGTH,
};

#[test]
fn black_maps_to_the_darkest_glyph() {
    assert_eq!(rgb_to_brightness(0, 0, 0), 0);
    assert_eq!(pixel_to_ascii(0, 0, 0), b' ');
}

#[test]
fn white_maps_to_the_brightest_glyph() {
    assert_eq!(rgb_to_brightness(255, 255, 255), MAX_LUMA);
    assert_eq!(pixel_to_ascii(255, 255, 255), b'8');
}

#[test]
fn every_ramp_index_yields_a_glyph() {
    let expected = b"  .:!+*e$@8";
    assert_eq!(expected.len(), RAMP_LENGTH);
    for i in 0..RAMP_LENGTH {
        assert_eq!(ramp_glyph(i), expected[i]);
    }
}

#[test]
fn every_pixel_classifies_inside_the_ramp() {
    let ramp = b"  .:!+*e$@8";
    for r in [0u8, 1, 63, 127, 128, 254, 255] {
        for g in [0u8, 1, 63, 127, 128, 254, 255] {
            for b in [0u8, 1, 63, 127, 128, 254, 255] {
                let glyph = pixel_to_ascii(r, g, b);
                assert!(ramp.contains(&glyph));
            }
        }
    }
}

#[test]
fn mid_gray_quantizes_to_the_expected_glyph() {
    // luma(128,128,128) = 10000 * 128 = 1280000; index = 12800000 / 2550000 = 5.
    assert_eq!(rgb_to_brightness(128, 128, 128), 1_280_000);
    assert_eq!(brightness_to_ascii(1_280_000), b'+');
    assert_eq!(pixel_to_ascii(128, 128, 128), b'+');
}

#[test]
fn brightness_weights_match_bt709() {
    // 0.2126 * 255, 0.7152 * 255 and 0.0722 * 255, each scaled by 10000.
    assert_eq!(rgb_to_brightness(255, 0, 0), 2126 * 255);
    assert_eq!(rgb_to_brightness(0, 255, 0), 7152 * 255);
    assert_eq!(rgb_to_brightness(0, 0, 255), 722 * 255);
}

#[test]
fn brightness_is_monotone_in_each_channel() {
    for v in 0..255u8 {
        assert!(rgb_to_brightness(v, 7, 9) <= rgb_to_brightness(v + 1, 7, 9));
        assert!(rgb_to_brightness(7, v, 9) <= rgb_to_brightness(7, v + 1, 9));
        assert!(rgb_to_brightness(7, 9, v) <= rgb_to_brightness(7, 9, v + 1));
    }
}

#[test]
fn brightness_boundary_stays_in_bounds() {
    assert_eq!(brightness_to_ascii(0), b' ');
    assert_eq!(brightness_to_ascii(MAX_LUMA), b'8');
    assert_eq!(brightness_to_ascii(MAX_LUMA - 1), b'@');
}
