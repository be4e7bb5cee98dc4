use pico::color::{hsl_components, rgb_to_hex, rgb_to_hsl, rgb_to_rgb, rgb_to_rgba};

#[test]
fn hex_concrete_values() {
    assert_eq!(rgb_to_hex(18, 52, 86), "#123456");
    assert_eq!(rgb_to_hex(0, 0, 0), "#000000");
    assert_eq!(rgb_to_hex(255, 255, 255), "#FFFFFF");
    assert_eq!(rgb_to_hex(0, 10, 255), "#000AFF");
    assert_eq!(rgb_to_hex(171, 205, 239), "#ABCDEF");
}

#[test]
fn hex_matches_bit_pattern_on_sample() {
    let samples: [u8; 7] = [0, 1, 9, 15, 16, 128, 255];
    for &r in samples.iter() {
        for &g in samples.iter() {
            for &b in samples.iter() {
                assert_eq!(rgb_to_hex(r, g, b), format!("#{:02X}{:02X}{:02X}", r, g, b));
            }
        }
    }
}

#[test]
fn rgb_concrete_values() {
    assert_eq!(rgb_to_rgb(18, 52, 86), "rgb(18, 52, 86)");
    assert_eq!(rgb_to_rgb(0, 0, 0), "rgb(0, 0, 0)");
    assert_eq!(rgb_to_rgb(255, 255, 255), "rgb(255, 255, 255)");
    assert_eq!(rgb_to_rgb(7, 0, 99), "rgb(7, 0, 99)");
}

#[test]
fn rgba_concrete_values() {
    assert_eq!(rgb_to_rgba(18, 52, 86), "rgba(18, 52, 86, 1.0)");
    assert_eq!(rgb_to_rgba(0, 0, 0), "rgba(0, 0, 0, 1.0)");
    assert_eq!(rgb_to_rgba(255, 255, 255), "rgba(255, 255, 255, 1.0)");
}

#[test]
fn rgba_always_ends_with_full_opacity() {
    let samples: [u8; 5] = [0, 3, 42, 100, 255];
    for &r in samples.iter() {
        for &g in samples.iter() {
            for &b in samples.iter() {
                assert!(rgb_to_rgba(r, g, b).ends_with(", 1.0)"));
            }
        }
    }
}

#[test]
fn hsl_boundary_cases() {
    assert_eq!(rgb_to_hsl(0, 0, 0), "hsl(0, 0%, 0%)");
    assert_eq!(rgb_to_hsl(255, 255, 255), "hsl(0, 0%, 100%)");
    assert_eq!(rgb_to_hsl(255, 0, 0), "hsl(0, 100%, 50%)");
    assert_eq!(rgb_to_hsl(0, 255, 0), "hsl(120, 100%, 50%)");
    assert_eq!(rgb_to_hsl(0, 0, 255), "hsl(240, 100%, 50%)");
}

#[test]
fn hsl_mid_blue() {
    assert_eq!(rgb_to_hsl(18, 52, 86), "hsl(210, 65%, 20%)");
}

#[test]
fn hsl_gray_has_zero_hue_and_saturation() {
    for v in [1u8, 77, 128, 200, 254] {
        let text = rgb_to_hsl(v, v, v);
        assert!(text.starts_with("hsl(0, 0%, "), "{}", text);
    }
    assert_eq!(rgb_to_hsl(128, 128, 128), "hsl(0, 0%, 50%)");
}

#[test]
fn hsl_components_exact() {
    assert_eq!(hsl_components(18, 52, 86), (210, 65, 20));
    assert_eq!(hsl_components(0, 255, 0), (120, 100, 50));
    assert_eq!(hsl_components(128, 128, 128), (0, 0, 50));
}

#[test]
fn hsl_red_branch_wraps_near_full_turn() {
    // Largest channel red with green just below blue: the hue comes out a
    // shade under a full turn and rounds to 360 degrees.
    assert_eq!(hsl_components(255, 0, 1), (360, 100, 50));
    assert_eq!(rgb_to_hsl(255, 0, 1), "hsl(360, 100%, 50%)");
}
