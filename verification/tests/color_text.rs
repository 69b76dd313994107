//! Reading and writing the `#rrggbb` colors and the mode a theme declares.

use omarchy_theme::{Mode, Rgb, ThemeError};

#[test]
fn reads_a_lowercase_color() {
    let color = Rgb::parse("background", "#2d353b").unwrap();
    assert_eq!(
        color,
        Rgb {
            red: 0x2d,
            green: 0x35,
            blue: 0x3b
        }
    );
}

#[test]
fn reads_an_uppercase_color() {
    assert_eq!(
        Rgb::parse("accent", "#B91C1C").unwrap(),
        Rgb::parse("accent", "#b91c1c").unwrap()
    );
}

#[test]
fn reads_the_extremes() {
    assert_eq!(
        Rgb::parse("k", "#000000").unwrap(),
        Rgb {
            red: 0,
            green: 0,
            blue: 0
        }
    );
    assert_eq!(
        Rgb::parse("k", "#ffffff").unwrap(),
        Rgb {
            red: 255,
            green: 255,
            blue: 255
        }
    );
}

#[test]
fn rejects_anything_that_is_not_rrggbb() {
    for value in [
        "2d353b",
        "#2d353",
        "#2d353bb",
        "#gggggg",
        "",
        "#",
        "rgb(1e1e1e)",
    ] {
        let error = Rgb::parse("background", value).unwrap_err();
        assert!(
            matches!(&error, ThemeError::InvalidColor("background", got) if got == value),
            "should have rejected `{value}`"
        );
    }
}

#[test]
fn renders_back_the_way_the_theme_declares_it() {
    assert_eq!(Rgb::parse("k", "#2D353B").unwrap().to_hex(), "#2d353b");
}

#[test]
fn rejects_a_color_with_a_multibyte_character() {
    let error = Rgb::parse("accent", "#2d35é").unwrap_err();
    assert!(matches!(&error, ThemeError::InvalidColor("accent", got) if got == "#2d35é"));
}

#[test]
fn renders_every_channel_as_two_lowercase_digits() {
    let color = Rgb {
        red: 0x0a,
        green: 0xf0,
        blue: 0x00,
    };
    assert_eq!(color.to_hex(), "#0af000");
}

#[test]
fn reads_back_every_color_it_renders() {
    for red in (0..=255u16).step_by(17) {
        for green in [0u8, 1, 127, 128, 254, 255] {
            for blue in [0u8, 9, 10, 15, 16, 255] {
                let color = Rgb {
                    red: red as u8,
                    green,
                    blue,
                };
                assert_eq!(Rgb::parse("k", &color.to_hex()).unwrap(), color);
            }
        }
    }
}

#[test]
fn reads_both_modes() {
    assert_eq!(Mode::parse("dark").unwrap(), Mode::Dark);
    assert_eq!(Mode::parse("light").unwrap(), Mode::Light);
}

#[test]
fn rejects_an_unknown_mode() {
    let error = Mode::parse("sepia").unwrap_err();
    assert!(matches!(error, ThemeError::InvalidMode(value) if value == "sepia"));
}

#[test]
fn rejects_a_mode_in_another_case() {
    let error = Mode::parse("Dark").unwrap_err();
    assert!(matches!(error, ThemeError::InvalidMode(value) if value == "Dark"));
}

#[test]
fn identifies_the_dark_mode() {
    assert!(Mode::Dark.is_dark());
    assert!(!Mode::Light.is_dark());
}

#[test]
fn flips_to_the_other_mode_and_back() {
    assert_eq!(Mode::Dark.flipped(), Mode::Light);
    assert_eq!(Mode::Light.flipped(), Mode::Dark);
    assert_eq!(Mode::Dark.flipped().flipped(), Mode::Dark);
}

#[test]
fn words_each_error_for_a_person() {
    let cases = [
        (
            ThemeError::NotFound("/t/colors.toml".to_owned()),
            "no theme found at /t/colors.toml",
        ),
        (
            ThemeError::Unreadable("/t/colors.toml".to_owned(), "denied".to_owned()),
            "cannot read /t/colors.toml: denied",
        ),
        (
            ThemeError::InvalidToml("/t/colors.toml".to_owned(), "bad".to_owned()),
            "invalid TOML in /t/colors.toml: bad",
        ),
        (
            ThemeError::MissingKey("background"),
            "the theme does not declare `background`",
        ),
        (
            ThemeError::InvalidMode("sepia".to_owned()),
            "`mode` expected \"dark\" or \"light\", got `sepia`",
        ),
        (
            ThemeError::InvalidColor("accent", "red".to_owned()),
            "`accent` expected an #rrggbb color, got `red`",
        ),
        (
            ThemeError::Watch("gone".to_owned()),
            "cannot watch the theme for changes: gone",
        ),
        (
            ThemeError::Signal("no pair".to_owned()),
            "cannot set up change notification: no pair",
        ),
    ];
    for (error, expected) in cases {
        assert_eq!(error.message(), expected);
    }
}
