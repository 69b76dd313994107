//! Taking a theme through a representation before its roles are resolved.

use omarchy_theme::modes::{
    amplified, desaturated, inverted, map_colors, map_split, printed, representation_at,
};
use omarchy_theme::theme::theme_from_toml;
use omarchy_theme::{represent, Mode, Representation, Rgb, Theme};

const EVERFOREST: &str = r##"mode = "dark"
accent = "#7fbbb3"
selection = "#3d484d"
muted = "#859289"
background = "#2d353b"
dark_background = "#232a2e"
darker_background = "#1e2326"
lighter_background = "#343f44"
foreground = "#d3c6aa"
dark_foreground = "#9da9a0"
light_foreground = "#e4dcc8"
bright_foreground = "#fdf6e3"
red = "#e67e80"
yellow = "#dbbc7f"
green = "#a7c080"
cyan = "#83c092"
blue = "#7fbbb3"
magenta = "#d699b6"
orange = "#e09d7f"
brown = "#704e3f""##;

fn same(color: Rgb) -> Rgb {
    color
}

fn theme(text: &str) -> Theme {
    theme_from_toml("colors.toml", text, same, same).unwrap()
}

fn everforest() -> Theme {
    theme(EVERFOREST)
}

fn flexoki_light() -> Theme {
    theme(&EVERFOREST.replace("mode = \"dark\"", "mode = \"light\""))
}

/// Every channel turned around: a stand-in for a reflection that tells where a color went.
fn negative(color: Rgb) -> Rgb {
    Rgb {
        red: 255 - color.red,
        green: 255 - color.green,
        blue: 255 - color.blue,
    }
}

fn grey(color: Rgb) -> Rgb {
    let level = ((color.red as u16 + color.green as u16 + color.blue as u16) / 3) as u8;
    Rgb {
        red: level,
        green: level,
        blue: level,
    }
}

fn keep(color: Rgb, _ground: Rgb) -> Rgb {
    color
}

fn invert(theme: Theme) -> Theme {
    inverted(&theme, &negative, &keep)
}

fn amplify(theme: Theme) -> Theme {
    amplified(&theme, &negative)
}

fn desaturate(theme: Theme) -> Theme {
    desaturated(&theme, &grey)
}

fn print(theme: Theme) -> Theme {
    printed(&theme, &grey)
}

fn through(theme: &Theme, representation: Representation) -> Theme {
    represent(theme, representation, &negative, &keep, &negative, &grey)
}

#[test]
fn falls_back_to_original_for_an_out_of_range_representation() {
    assert_eq!(
        representation_at(omarchy_theme::api::OMARCHY_REPRESENTATION_COUNT),
        Representation::Original
    );
}

#[test]
fn reads_each_representation_by_its_index() {
    for (index, representation) in Representation::ALL.into_iter().enumerate() {
        assert_eq!(representation_at(index), representation);
    }
}

#[test]
fn original_changes_nothing() {
    let theme = everforest();
    assert_eq!(through(&theme, Representation::Original), theme);
}

#[test]
fn hands_each_representation_to_its_own_transform() {
    let theme = everforest();

    assert_eq!(through(&theme, Representation::Inverted), invert(theme));
    assert_eq!(through(&theme, Representation::HighContrast), amplify(theme));
    assert_eq!(through(&theme, Representation::Mono), desaturate(theme));
    assert_eq!(through(&theme, Representation::Print), print(theme));
}

#[test]
fn flips_the_theme_mode() {
    let dark = everforest();
    assert_eq!(invert(dark).mode, Mode::Light);

    let light = flexoki_light();
    assert_eq!(invert(light).mode, Mode::Dark);
}

#[test]
fn reflects_the_page_and_keeps_the_accents() {
    let theme = everforest();
    let turned = invert(theme);

    assert_eq!(turned.colors.background, negative(theme.colors.background));
    assert_eq!(turned.colors.foreground, negative(theme.colors.foreground));
    assert_eq!(turned.colors.selection, negative(theme.colors.selection));
    assert_eq!(turned.colors.accent, theme.colors.accent);
    assert_eq!(turned.colors.red, theme.colors.red);
    assert_eq!(turned.colors.orange, theme.colors.orange);
}

#[test]
fn keeps_an_accent_on_the_reflected_ground() {
    let theme = everforest();
    let onto = |_color: Rgb, ground: Rgb| ground;
    let turned = inverted(&theme, &negative, &onto);

    let ground = negative(theme.colors.background);
    assert_eq!(turned.colors.accent, ground);
    assert_eq!(turned.colors.bright_magenta, ground);
    assert_eq!(turned.colors.brown, Some(ground));
}

#[test]
fn high_contrast_keeps_the_theme_mode() {
    let theme = everforest();
    assert_eq!(amplify(theme).mode, theme.mode);
}

#[test]
fn mono_keeps_the_theme_mode() {
    let theme = everforest();
    assert_eq!(desaturate(theme).mode, theme.mode);
}

#[test]
fn drops_the_hue_of_every_declared_color() {
    let flattened = desaturate(everforest()).colors;

    for color in [flattened.accent, flattened.red, flattened.background, flattened.bright_cyan] {
        assert_eq!(color.red, color.green);
        assert_eq!(color.green, color.blue);
    }
    let orange = flattened.orange.unwrap();
    assert_eq!(orange.red, orange.blue);
}

#[test]
fn applies_a_transform_to_every_declared_color_and_none_to_an_absent_one() {
    let mut theme = everforest();
    theme.colors.brown = None;
    theme.colors.dark_brown = None;
    theme.colors.bright_brown = None;
    let mapped = map_colors(&theme.colors, &negative);

    assert_eq!(mapped.accent, negative(theme.colors.accent));
    assert_eq!(mapped.darker_background, negative(theme.colors.darker_background));
    assert_eq!(mapped.dark_magenta, negative(theme.colors.dark_magenta));
    assert_eq!(mapped.orange, theme.colors.orange.map(negative));
    assert_eq!(mapped.bright_orange, theme.colors.bright_orange.map(negative));
    assert_eq!(mapped.brown, None);
}

#[test]
fn splits_the_page_from_its_accents() {
    let theme = everforest();
    let split = map_split(&theme.colors, &negative, &grey);

    assert_eq!(split.background, negative(theme.colors.background));
    assert_eq!(split.muted, negative(theme.colors.muted));
    assert_eq!(split.bright_foreground, negative(theme.colors.bright_foreground));
    assert_eq!(split.accent, grey(theme.colors.accent));
    assert_eq!(split.blue, grey(theme.colors.blue));
    assert_eq!(split.orange, theme.colors.orange.map(grey));
}

#[test]
fn prints_black_on_a_white_page() {
    let theme = everforest();
    let page = through(&theme, Representation::Print);

    assert_eq!(page.mode, Mode::Light);
    assert_eq!(page.colors.background, Rgb { red: 255, green: 255, blue: 255 });
    for ink in [
        page.colors.foreground,
        page.colors.dark_foreground,
        page.colors.light_foreground,
        page.colors.bright_foreground,
    ] {
        assert_eq!(ink, Rgb { red: 0, green: 0, blue: 0 });
    }
    assert_eq!(page.colors.accent, grey(theme.colors.accent));
    assert_eq!(page.colors.lighter_background, grey(theme.colors.lighter_background));
    assert_eq!(page.colors.orange, theme.colors.orange.map(grey));
}

#[test]
fn prints_a_light_theme_on_the_same_page() {
    let page = print(flexoki_light());

    assert_eq!(page.mode, Mode::Light);
    assert_eq!(page.colors.background, Rgb { red: 255, green: 255, blue: 255 });
}

#[test]
fn keeps_the_optional_colors_declared_in_every_representation() {
    let mut theme = everforest();
    theme.colors.brown = None;
    theme.colors.dark_brown = None;
    theme.colors.bright_brown = None;

    for representation in Representation::ALL {
        let taken = through(&theme, representation);
        assert!(taken.colors.orange.is_some(), "{representation:?}");
        assert!(taken.colors.brown.is_none(), "{representation:?}");
        assert!(taken.colors.dark_brown.is_none(), "{representation:?}");
    }
}
