use fractal_viewer::shade::{intensity, pack_gray, shade, GRAY_UNIT, WHITE_LEVEL};

#[test]
fn intensity_of_nothing_escaped_is_black() {
    assert_eq!(intensity(0, 1), 0);
    assert_eq!(intensity(0, 30), 0);
    assert_eq!(intensity(0, usize::MAX), 0);
}

#[test]
fn intensity_of_all_escaped_is_white() {
    assert_eq!(intensity(1, 1), 255);
    assert_eq!(intensity(30, 30), 255);
    assert_eq!(intensity(usize::MAX, usize::MAX), WHITE_LEVEL);
}

#[test]
fn intensity_is_floor_of_scaled_root() {
    // 255 * sqrt(15 / 30) = 180.31...
    assert_eq!(intensity(15, 30), 180);
    // 255 * sqrt(1 / 30) = 46.55...
    assert_eq!(intensity(1, 30), 46);
    // 255 * sqrt(29 / 30) = 250.71...
    assert_eq!(intensity(29, 30), 250);
    // 255 * sqrt(1 / 4) = 127.5
    assert_eq!(intensity(1, 4), 127);
    // 255 * sqrt(25 / 50) = 180.31...
    assert_eq!(intensity(25, 50), 180);
}

#[test]
fn intensity_of_exact_roots() {
    // 255 * sqrt(1 / 9) = 85
    assert_eq!(intensity(1, 9), 85);
    // 255 * sqrt(4 / 25) = 102
    assert_eq!(intensity(4, 25), 102);
    // 255 * sqrt(169 / 225) = 255 * 13 / 15 = 221
    assert_eq!(intensity(169, 225), 221);
}

#[test]
fn intensity_brackets_the_root() {
    for max in 1..=120usize {
        for escaped in 0..=max {
            let level = intensity(escaped, max) as u128;
            let target = 65025u128 * escaped as u128;
            assert!(level <= 255);
            assert!(level * level * max as u128 <= target);
            assert!(target < (level + 1) * (level + 1) * max as u128);
        }
    }
}

#[test]
fn intensity_matches_floating_point_formula() {
    for max in 1..=200usize {
        for escaped in 0..=max {
            let expected = ((escaped as f64 / max as f64).sqrt() * 255.0) as u32;
            assert_eq!(intensity(escaped, max), expected, "{} of {}", escaped, max);
        }
    }
}

#[test]
fn intensity_never_decreases_with_the_count() {
    let max = 1000usize;
    let mut last = 0u32;
    for escaped in 0..=max {
        let level = intensity(escaped, max);
        assert!(level >= last);
        last = level;
    }
    assert_eq!(last, 255);
}

#[test]
fn intensity_near_the_machine_limit() {
    assert_eq!(intensity(usize::MAX / 4, usize::MAX), 127);
    assert_eq!(intensity(usize::MAX - 1, usize::MAX), 254);
    assert_eq!(intensity(1, usize::MAX), 0);
}

#[test]
fn pack_gray_repeats_the_level_in_each_channel() {
    assert_eq!(GRAY_UNIT, 0x010101);
    assert_eq!(pack_gray(0), 0x000000);
    assert_eq!(pack_gray(1), 0x010101);
    assert_eq!(pack_gray(0xB4), 0xB4B4B4);
    assert_eq!(pack_gray(255), 0xFFFFFF);
    for level in 0..=255u32 {
        let pixel = pack_gray(level);
        assert_eq!(pixel & 0xFF, level);
        assert_eq!((pixel >> 8) & 0xFF, level);
        assert_eq!((pixel >> 16) & 0xFF, level);
        assert_eq!(pixel >> 24, 0);
    }
}

#[test]
fn shade_packs_the_intensity() {
    assert_eq!(shade(0, 30), 0);
    assert_eq!(shade(15, 30), 0xB4B4B4);
    assert_eq!(shade(1, 30), 0x2E2E2E);
    assert_eq!(shade(30, 30), 0xFFFFFF);
}
