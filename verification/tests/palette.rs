//! Basic palettes in, extended palettes out, and the roles and ramps they carry.

use omarchy_theme::api::SurfaceSteps;
use omarchy_theme::color::{Grounds, Levels};
use omarchy_theme::theme::theme_from_toml;
use omarchy_theme::{Level, Mode, Palette, PaletteSeed, Ramp, Rgb, Role, Roles, Theme};

const EVERFOREST: &str = r##"mode = "dark"
accent = "#7fbbb3"
selection = "#3d484d"
muted = "#859289"
background = "#2d353b"
dark_background = "#232a2e"
darker_background = "#1e2326"
lighter_background = "#343f44"
foreground = "#d3c6aa"
dark_foreground = "#9da9a0"
light_foreground = "#e4dcc8"
bright_foreground = "#fdf6e3"
red = "#e67e80"
yellow = "#dbbc7f"
green = "#a7c080"
cyan = "#83c092"
blue = "#7fbbb3"
magenta = "#d699b6"
orange = "#e09d7f"
brown = "#704e3f""##;

/// A theme whose declared mode is light although its background is dark.
const MODE_CONTRADICTS_TONE: &str = r##"mode = "light"
accent = "#7fbbb3"
selection = "#3d484d"
muted = "#859289"
background = "#111111"
dark_background = "#0a0a0a"
darker_background = "#050505"
lighter_background = "#1c1c1c"
foreground = "#eeeeee"
dark_foreground = "#cccccc"
light_foreground = "#f4f4f4"
bright_foreground = "#ffffff"
red = "#e67e80"
yellow = "#dbbc7f"
green = "#a7c080"
cyan = "#83c092"
blue = "#7fbbb3"
magenta = "#d699b6""##;

fn same(color: Rgb) -> Rgb {
    color
}

fn hex(text: &str) -> Rgb {
    Rgb::parse("k", text).unwrap()
}

fn theme(text: &str) -> Theme {
    theme_from_toml("colors.toml", text, same, same).unwrap()
}

const STEPS: SurfaceSteps = SurfaceSteps {
    dark: 10,
    darker: 5,
    lighter: 30,
};

/// Roles placed the simplest way a test can tell apart: the placed grounds are fixed colors, and
/// every content weight on a ground is its foreground.
fn resolve(theme: Theme) -> Roles {
    let grounds = Grounds {
        raised: hex("#010101"),
        recessed: hex("#020202"),
        border: hex("#030303"),
        focus: hex("#040404"),
        disabled: hex("#050505"),
    };
    let foreground = theme.colors.foreground;
    Roles::resolve_with(&theme, &grounds, |_ground: Rgb| Levels {
        primary: foreground,
        secondary: foreground,
        disabled: foreground,
    })
}

fn extend(seed: &PaletteSeed, inferred: Mode) -> Palette {
    seed.extend_with(inferred, STEPS, resolve)
}

#[test]
fn reads_a_basic_palette_from_an_omarchy_theme() {
    let basic = PaletteSeed::from_theme(&theme(EVERFOREST));

    assert_eq!(basic.background(), Rgb::parse("k", "#2d353b").unwrap());
    assert_eq!(basic.foreground(), Rgb::parse("k", "#d3c6aa").unwrap());
    assert_eq!(basic.accent(), Rgb::parse("k", "#7fbbb3").unwrap());
}

#[test]
fn follows_the_theme_mode_over_the_background_tone() {
    let basic = PaletteSeed::from_theme(&theme(MODE_CONTRADICTS_TONE));

    // The background reads as dark; the declared mode still wins.
    assert!(!extend(&basic, Mode::Dark).dark());
}

#[test]
fn lets_the_application_override_the_inferred_mode() {
    let basic = PaletteSeed::new(
        Rgb::parse("k", "#111111").unwrap(),
        Rgb::parse("k", "#eeeeee").unwrap(),
        Rgb::parse("k", "#7fbbb3").unwrap(),
    );

    assert!(!extend(&basic.with_mode(Mode::Light), Mode::Dark).dark());
}

#[test]
fn takes_the_inferred_mode_when_none_is_stated() {
    let basic = PaletteSeed::new(hex("#111111"), hex("#eeeeee"), hex("#7fbbb3"));

    assert!(extend(&basic, Mode::Dark).dark());
    assert!(!extend(&basic, Mode::Light).dark());
}

#[test]
fn fills_every_unstated_key_with_its_default() {
    let basic = PaletteSeed::new(hex("#111111"), hex("#eeeeee"), hex("#7fbbb3"));
    let colors = basic.derived_colors(STEPS);
    let ramp = Ramp::of(hex("#111111"));

    assert_eq!(colors.selection, hex("#7fbbb3"));
    assert_eq!(colors.muted, hex("#eeeeee"));
    assert_eq!(colors.red, Rgb { red: 229, green: 72, blue: 77 });
    assert_eq!(colors.dark_background, ramp.tone(10));
    assert_eq!(colors.darker_background, ramp.tone(5));
    assert_eq!(colors.lighter_background, ramp.tone(30));
    assert_eq!(colors.blue, hex("#eeeeee"));
    assert_eq!(colors.bright_foreground, hex("#eeeeee"));
    assert_eq!(colors.orange, None);
    assert_eq!(colors.brown, None);
}

#[test]
fn keeps_every_key_the_application_states() {
    let basic = PaletteSeed::new(hex("#111111"), hex("#eeeeee"), hex("#7fbbb3"))
        .with_selection(hex("#333333"))
        .with_muted(hex("#888888"))
        .with_error(hex("#ff0000"))
        .with_surface_light(hex("#222222"))
        .with_surface_dark(hex("#0a0a0a"));
    let colors = basic.derived_colors(STEPS);

    assert_eq!(colors.selection, hex("#333333"));
    assert_eq!(colors.muted, hex("#888888"));
    assert_eq!(colors.red, hex("#ff0000"));
    assert_eq!(colors.lighter_background, hex("#222222"));
    assert_eq!(colors.dark_background, hex("#0a0a0a"));
}

#[test]
fn hands_out_the_roles_it_resolved() {
    let basic = PaletteSeed::new(hex("#111111"), hex("#eeeeee"), hex("#7fbbb3"));
    let palette = extend(&basic, Mode::Dark);

    assert_eq!(palette.color(Role::Background), hex("#111111"));
    assert_eq!(palette.color(Role::Primary), hex("#7fbbb3"));
    assert_eq!(palette.color(Role::Selection), hex("#7fbbb3"));
    assert_eq!(palette.color(Role::Elevated), hex("#010101"));
    assert_eq!(palette.on(Role::Primary), hex("#eeeeee"));
    assert_eq!(palette.content(Role::Error, Level::Disabled), hex("#eeeeee"));
    assert_eq!(palette.theme_colors(), basic.derived_colors(STEPS));
}

#[test]
fn mod_gives_every_role_a_ramp_that_spans_the_scale() {
    let palette = extend(
        &PaletteSeed::new(
            Rgb::parse("k", "#111111").unwrap(),
            Rgb::parse("k", "#eeeeee").unwrap(),
            Rgb::parse("k", "#7fbbb3").unwrap(),
        ),
        Mode::Dark,
    );

    for role in Role::ALL {
        assert_eq!(palette.ramp(role).tone(0), Rgb::parse("k", "#000000").unwrap());
        assert_eq!(palette.ramp(role).tone(100), Rgb::parse("k", "#ffffff").unwrap());
    }
}

#[test]
fn picks_the_first_foreground_that_reads() {
    let palette = extend(&PaletteSeed::from_theme(&theme(EVERFOREST)), Mode::Dark);
    let ground = hex("#7fbbb3");
    let bright = hex("#fdf6e3");

    let reads_bright = |content: Rgb, _ground: Rgb| content == bright;
    let invent = |_ground: Rgb| hex("#123456");
    // The palette's foregrounds are all the theme's foreground: it reads first.
    let first = palette.on_color_with(ground, |_c: Rgb, _g: Rgb| true, invent);
    assert_eq!(first, hex("#d3c6aa"));
    // When nothing the palette offers reads, the fallback invents the content.
    let none = palette.on_color_with(ground, reads_bright, invent);
    assert_eq!(none, hex("#123456"));
}

#[test]
fn maps_the_roles_the_theme_backs_directly() {
    let theme = theme(EVERFOREST);
    let roles = resolve(theme);
    let colors = &theme.colors;

    assert_eq!(roles.color(Role::Background), colors.background);
    assert_eq!(roles.color(Role::Primary), colors.accent);
    assert_eq!(roles.color(Role::Selection), colors.selection);
    assert_eq!(roles.color(Role::Muted), colors.muted);
    assert_eq!(roles.color(Role::Error), colors.red);
}

#[test]
fn places_the_roles_the_theme_does_not_back() {
    let roles = resolve(theme(EVERFOREST));

    assert_eq!(roles.color(Role::Elevated), hex("#010101"));
    assert_eq!(roles.color(Role::Recessed), hex("#020202"));
    assert_eq!(roles.color(Role::Border), hex("#030303"));
    assert_eq!(roles.color(Role::Focus), hex("#040404"));
    assert_eq!(roles.color(Role::Disabled), hex("#050505"));
}

#[test]
fn gives_each_role_the_content_of_its_own_ground() {
    let theme = theme(EVERFOREST);
    let grounds = Grounds {
        raised: hex("#010101"),
        recessed: hex("#020202"),
        border: hex("#030303"),
        focus: hex("#040404"),
        disabled: hex("#050505"),
    };
    let roles = Roles::resolve_with(&theme, &grounds, |ground: Rgb| Levels {
        primary: ground,
        secondary: Rgb { red: ground.red, green: 0, blue: 0 },
        disabled: Rgb { red: 0, green: 0, blue: ground.blue },
    });

    for role in Role::ALL {
        let ground = roles.color(role);
        assert_eq!(roles.on(role), ground);
        assert_eq!(roles.content(role, Level::Primary), ground);
        assert_eq!(roles.content(role, Level::Secondary).red, ground.red);
        assert_eq!(roles.content(role, Level::Disabled).blue, ground.blue);
    }
}

#[test]
fn gives_every_role_a_ramp_that_spans_the_scale() {
    let roles = resolve(theme(EVERFOREST));

    for role in Role::ALL {
        let ramp = roles.ramp(role);
        assert_eq!(ramp.tone(0), Rgb::parse("k", "#000000").unwrap());
        assert_eq!(ramp.tone(100), Rgb::parse("k", "#ffffff").unwrap());
    }
}

#[test]
fn lists_every_role_once_in_its_order() {
    for (index, role) in Role::ALL.into_iter().enumerate() {
        assert_eq!(Role::at(index), Some(role));
    }
    assert_eq!(Role::at(Role::ALL.len()), None);
}

#[test]
fn resolves_a_theme_seed_to_the_roles_of_the_theme() {
    let theme = theme(EVERFOREST);
    let palette = extend(&PaletteSeed::from_theme(&theme), Mode::Light);
    let roles = resolve(theme);

    assert!(palette.dark());
    for role in Role::ALL {
        assert_eq!(palette.color(role), roles.color(role), "{role:?}");
    }
}
