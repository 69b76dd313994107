//! Tonal ramps: a base color taken from black to white at its own hue.

use material_colors::color::Argb;
use material_colors::hct::Hct;
use omarchy_theme::{Ramp, Rgb};

fn ramp() -> Ramp {
    Ramp::of(Rgb::parse("k", "#7fbbb3").unwrap())
}

fn hct(color: Rgb) -> Hct {
    Hct::new(Argb::new(u8::MAX, color.red, color.green, color.blue))
}

#[test]
fn runs_from_black_to_white() {
    assert_eq!(ramp().tone(0), Rgb::parse("k", "#000000").unwrap());
    assert_eq!(ramp().tone(100), Rgb::parse("k", "#ffffff").unwrap());
}

#[test]
fn grows_lighter_with_every_step() {
    let ramp = ramp();
    let mut previous = -1.0;

    for step in (0..=100).step_by(10) {
        let current = hct(ramp.tone(step)).get_tone();
        assert!(
            current > previous,
            "tone {step} did not rise above the previous step"
        );
        previous = current;
    }
}

#[test]
fn clamps_beyond_the_end_of_the_scale() {
    assert_eq!(ramp().tone(255), ramp().tone(100));
    assert_eq!(ramp().tone(101), ramp().tone(100));
}

#[test]
fn keeps_the_hue_of_its_base() {
    let base = Rgb::parse("k", "#7fbbb3").unwrap();
    let base_hue = hct(base).get_hue();

    for step in [30, 50, 70] {
        let hue = hct(ramp().tone(step)).get_hue();
        assert!(
            (hue - base_hue).abs() < 5.0,
            "tone {step} drifted from hue {base_hue:.1} to {hue:.1}"
        );
    }
}

#[test]
fn spans_the_scale_whatever_the_base() {
    for base in ["#000000", "#ffffff", "#e67e80", "#2d353b"] {
        let ramp = Ramp::of(Rgb::parse("k", base).unwrap());
        assert_eq!(ramp.tone(0), Rgb { red: 0, green: 0, blue: 0 });
        assert_eq!(ramp.tone(100), Rgb { red: 255, green: 255, blue: 255 });
    }
}
