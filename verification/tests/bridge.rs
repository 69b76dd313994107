//! The plain values the C bridge hands across.

use omarchy_theme::api::{
    color_name, declared_colors, error_message_bytes, representation_name, role_name,
    snapshot_of, to_color, OmarchyColor, OMARCHY_COLOR_COUNT, OMARCHY_REPRESENTATION_COUNT,
    OMARCHY_ROLE_COUNT,
};
use omarchy_theme::color::{Grounds, Levels};
use omarchy_theme::theme::theme_from_toml;
use omarchy_theme::{
    represent, Level, Representation, Rgb, Role, Roles, Theme, ThemeError,
};

const EVERFOREST: &str = r##"mode = "dark"
accent = "#7fbbb3"
selection = "#3d484d"
muted = "#859289"
background = "#2d353b"
dark_background = "#232a2e"
darker_background = "#1e2326"
lighter_background = "#343f44"
foreground = "#d3c6aa"
dark_foreground = "#9da9a0"
light_foreground = "#e4dcc8"
bright_foreground = "#fdf6e3"
red = "#e67e80"
dark_red = "#c46062"
bright_red = "#f09a9c"
yellow = "#dbbc7f"
green = "#a7c080"
cyan = "#83c092"
blue = "#7fbbb3"
magenta = "#d699b6"
orange = "#e09d7f"
brown = "#704e3f""##;

fn same(color: Rgb) -> Rgb {
    color
}

fn theme(text: &str) -> Theme {
    theme_from_toml("colors.toml", text, same, same).unwrap()
}

fn hex(text: &str) -> Rgb {
    Rgb::parse("k", text).unwrap()
}

/// Content that reads on anything: the ground with every channel turned around.
fn on(ground: Rgb) -> Rgb {
    Rgb {
        red: 255 - ground.red,
        green: 255 - ground.green,
        blue: 255 - ground.blue,
    }
}

fn resolve(theme: &Theme) -> Roles {
    let grounds = Grounds {
        raised: hex("#010101"),
        recessed: hex("#020202"),
        border: hex("#030303"),
        focus: hex("#040404"),
        disabled: hex("#050505"),
    };
    Roles::resolve_with(theme, &grounds, |ground: Rgb| Levels {
        primary: on(ground),
        secondary: ground,
        disabled: hex("#808080"),
    })
}

fn keep(color: Rgb, _ground: Rgb) -> Rgb {
    color
}

fn snapshot(theme: &Theme, representation: Representation) -> omarchy_theme::api::OmarchySnapshot {
    let theme = represent(theme, representation, &on, &keep, &same, &same);
    snapshot_of(&theme, &resolve(&theme), &on)
}

#[test]
fn carries_the_colors_the_theme_declares() {
    let theme = theme(EVERFOREST);
    let snapshot = snapshot(&theme, Representation::Original);

    let red = snapshot.colors[0];
    assert_eq!(red.original.color, to_color(theme.colors.red));
    assert_eq!(red.dark.color, to_color(theme.colors.dark_red));
    assert_eq!(red.bright.color, to_color(theme.colors.bright_red));
    assert!(snapshot.colors.iter().take(6).all(|family| family.declared));
}

#[test]
fn gives_each_shade_the_content_that_reads_on_it() {
    let theme = theme(EVERFOREST);
    let families = declared_colors(&theme, &on);

    let blue = families[3];
    assert_eq!(blue.original.color, to_color(theme.colors.blue));
    assert_eq!(blue.original.content, to_color(on(theme.colors.blue)));
    let brown = families[7];
    assert!(brown.declared);
    assert_eq!(brown.original.content, to_color(on(hex("#704e3f"))));
}

#[test]
fn marks_an_optional_color_the_theme_leaves_out() {
    let theme = theme(&EVERFOREST.replace("orange = \"#e09d7f\"\n", ""));
    let snapshot = snapshot(&theme, Representation::Original);

    let orange = snapshot.colors[6];
    assert!(!orange.declared);
    assert!(theme.colors.orange.is_none());
    let black = OmarchyColor { r: 0, g: 0, b: 0 };
    assert_eq!(orange.original.color, black);
    assert_eq!(orange.bright.content, black);
    assert!(snapshot.colors[7].declared);
}

#[test]
fn names_every_color_it_carries() {
    for index in 0..OMARCHY_COLOR_COUNT {
        assert!(color_name(index).is_some());
    }
    assert!(color_name(OMARCHY_COLOR_COUNT).is_none());
    assert_eq!(color_name(0), Some("Red"));
    assert_eq!(color_name(7), Some("Brown"));
}

#[test]
fn lists_roles_in_the_order_role_all_declares() {
    let theme = theme(EVERFOREST);
    let roles = resolve(&theme);
    let built = snapshot(&theme, Representation::Original);

    for (index, role) in Role::ALL.into_iter().enumerate() {
        assert_eq!(built.roles[index].color, to_color(roles.color(role)));
        assert_eq!(built.roles[index].content_main, to_color(roles.content(role, Level::Primary)));
        assert_eq!(built.roles[index].content_secondary, to_color(roles.content(role, Level::Secondary)));
        assert_eq!(built.roles[index].content_disabled, to_color(roles.content(role, Level::Disabled)));
    }
    assert_eq!(built.roles.len(), OMARCHY_ROLE_COUNT);
}

#[test]
fn carries_the_theme_mode() {
    let dark = theme(EVERFOREST);
    let light = theme(&EVERFOREST.replace("mode = \"dark\"", "mode = \"light\""));

    assert!(snapshot(&dark, Representation::Original).dark);
    assert!(!snapshot(&light, Representation::Original).dark);
}

#[test]
fn applies_the_requested_representation() {
    let dark = theme(EVERFOREST);

    // Inverted flips the mode; Original leaves it as declared.
    assert!(!snapshot(&dark, Representation::Inverted).dark);
    assert!(snapshot(&dark, Representation::Original).dark);
}

#[test]
fn names_every_role_and_stops_at_the_end() {
    for (index, role) in Role::ALL.into_iter().enumerate() {
        assert_eq!(role_name(index).unwrap(), format!("{role:?}"));
    }

    assert!(role_name(OMARCHY_ROLE_COUNT).is_none());
}

#[test]
fn names_every_representation_and_stops_at_the_end() {
    for (index, representation) in Representation::ALL.into_iter().enumerate() {
        assert_eq!(representation_name(index).unwrap(), format!("{representation:?}"));
    }

    assert!(representation_name(OMARCHY_REPRESENTATION_COUNT).is_none());
}

#[test]
fn reports_a_missing_theme_through_the_error_buffer() {
    let error = ThemeError::NotFound("tests/fixtures/does-not-exist.toml".to_owned());
    let bytes = error_message_bytes(&error.message(), 128);

    assert_eq!(bytes.last(), Some(&0));
    let message = std::str::from_utf8(&bytes[..bytes.len() - 1]).unwrap();
    assert!(message.contains("no theme found"), "got: {message}");
}

#[test]
fn truncates_a_message_too_long_for_the_buffer() {
    let error = ThemeError::NotFound("tests/fixtures/does-not-exist.toml".to_owned());
    let bytes = error_message_bytes(&error.message(), 8);

    assert_eq!(bytes.len(), 8);
    assert_eq!(bytes[7], 0, "the last byte must stay the null terminator");
    assert_eq!(&bytes[..7], b"no them");
}

#[test]
fn writes_nothing_into_a_buffer_of_no_bytes() {
    assert!(error_message_bytes("no theme found", 0).is_empty());
    assert_eq!(error_message_bytes("no theme found", 1), vec![0]);
}

#[test]
fn keeps_a_message_that_fits_whole() {
    assert_eq!(error_message_bytes("gone", 16), b"gone\0".to_vec());
    assert_eq!(error_message_bytes("gone", 5), b"gone\0".to_vec());
    assert_eq!(error_message_bytes("gone", 4), b"gon\0".to_vec());
}
