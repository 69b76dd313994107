//! The palette contract: basic in, extended and readable out.

use vstd::prelude::*;

use crate::color::{on_with, picked, role_ground, tonal_tone, Grounds, Level, Ramp, Role, Roles};
use crate::theme::{Mode, Rgb, Theme, ThemeColors};

verus! {

/// The palette an application or the theme reader starts from: a few core colors.
///
/// `background`, `foreground` and `accent` are required; everything else is optional and, when
/// left unstated, a readable value is derived for it when the palette is extended. The fields are
/// private: it is built only through constructors and builders.
#[derive(Debug, Clone, Copy, PartialEq, Eq, Structural)]
pub struct PaletteSeed {
    background: Rgb,
    foreground: Rgb,
    accent: Rgb,
    selection: Option<Rgb>,
    muted: Option<Rgb>,
    error: Option<Rgb>,
    surface_light: Option<Rgb>,
    surface_dark: Option<Rgb>,
    mode: Option<Mode>,
}

/// What a [`PaletteSeed`] states: the three colors it owns, and whatever else it was given.
pub struct SeedView {
    pub background: Rgb,
    pub foreground: Rgb,
    pub accent: Rgb,
    pub selection: Option<Rgb>,
    pub muted: Option<Rgb>,
    pub error: Option<Rgb>,
    pub surface_light: Option<Rgb>,
    pub surface_dark: Option<Rgb>,
    pub mode: Option<Mode>,
}

impl View for PaletteSeed {
    type V = SeedView;

    closed spec fn view(&self) -> SeedView {
        SeedView {
            background: self.background,
            foreground: self.foreground,
            accent: self.accent,
            selection: self.selection,
            muted: self.muted,
            error: self.error,
            surface_light: self.surface_light,
            surface_dark: self.surface_dark,
            mode: self.mode,
        }
    }
}

/// The steps of the background's own ramp the unstated surfaces are taken from: where the
/// background's tone lands 15 below (`dark`), 30 below (`darker`) and 15 above (`lighter`),
/// each brought to a step as a float is cast to `u8` — truncated, and held at 0 below the scale.
#[derive(Debug, Clone, Copy, PartialEq, Eq, Structural)]
pub struct SurfaceSteps {
    pub dark: u8,
    pub darker: u8,
    pub lighter: u8,
}

/// The error color a basic palette gets when the application does not state one. Red, distinct
/// from the accent, so a failing element reads as such no matter the theme.
pub open spec fn default_error() -> Rgb {
    Rgb { red: 229, green: 72, blue: 77 }
}

fn default_error_color() -> (r: Rgb)
    ensures
        r == default_error(),
{
    Rgb { red: 229, green: 72, blue: 77 }
}

pub open spec fn stated_or(stated: Option<Rgb>, default: Rgb) -> Rgb {
    match stated {
        Some(color) => color,
        None => default,
    }
}

/// The step `step` of `background`'s ramp, as [`Ramp::tone`] gives it.
pub open spec fn background_step(background: Rgb, step: u8) -> Rgb {
    tonal_tone(background, if step > 100 { 100 } else { step })
}

/// Every theme key a basic palette reads as: what it states, and for the rest the defaults — the
/// selection takes the accent, muted content the foreground, the error a fixed red, the surfaces
/// steps of the background's own ramp, every foreground key and every accent color but the error
/// the foreground, and the optional colors none.
pub open spec fn completed(seed: SeedView, steps: SurfaceSteps) -> ThemeColors {
    let fg = seed.foreground;
    let error = stated_or(seed.error, default_error());
    ThemeColors {
        accent: seed.accent,
        selection: stated_or(seed.selection, seed.accent),
        muted: stated_or(seed.muted, fg),
        background: seed.background,
        dark_background: stated_or(seed.surface_dark, background_step(seed.background, steps.dark)),
        darker_background: background_step(seed.background, steps.darker),
        lighter_background: stated_or(
            seed.surface_light,
            background_step(seed.background, steps.lighter),
        ),
        foreground: fg,
        dark_foreground: fg,
        light_foreground: fg,
        bright_foreground: fg,
        red: error,
        dark_red: error,
        bright_red: error,
        yellow: fg,
        dark_yellow: fg,
        bright_yellow: fg,
        green: fg,
        dark_green: fg,
        bright_green: fg,
        cyan: fg,
        dark_cyan: fg,
        bright_cyan: fg,
        blue: fg,
        dark_blue: fg,
        bright_blue: fg,
        magenta: fg,
        dark_magenta: fg,
        bright_magenta: fg,
        orange: None,
        dark_orange: None,
        bright_orange: None,
        brown: None,
        dark_brown: None,
        bright_brown: None,
    }
}

/// The basic palette a theme reads as: its three own colors, and the selection, muted, error
/// (`red`) and surface (`lighter_background`, `dark_background`) keys and mode it declares.
pub open spec fn seed_of_theme(theme: Theme) -> SeedView {
    SeedView {
        background: theme.colors.background,
        foreground: theme.colors.foreground,
        accent: theme.colors.accent,
        selection: Some(theme.colors.selection),
        muted: Some(theme.colors.muted),
        error: Some(theme.colors.red),
        surface_light: Some(theme.colors.lighter_background),
        surface_dark: Some(theme.colors.dark_background),
        mode: Some(theme.mode),
    }
}

/// The mode a basic palette reads as: the one it states, or `inferred` from its background.
pub open spec fn seed_mode(seed: SeedView, inferred: Mode) -> Mode {
    match seed.mode {
        Some(mode) => mode,
        None => inferred,
    }
}

impl PaletteSeed {
    /// The basic palette of a [`Theme`] already read: its three own colors, and the selection,
    /// muted, error (`red`) and surface (`lighter_background`, `dark_background`) keys and mode it
    /// declares.
    pub fn from_theme(theme: &Theme) -> (r: PaletteSeed)
        ensures
            r@ == seed_of_theme(*theme),
    {
        let colors = &theme.colors;
        PaletteSeed {
            background: colors.background,
            foreground: colors.foreground,
            accent: colors.accent,
            selection: Some(colors.selection),
            muted: Some(colors.muted),
            error: Some(colors.red),
            surface_light: Some(colors.lighter_background),
            surface_dark: Some(colors.dark_background),
            mode: Some(theme.mode),
        }
    }

    /// A basic palette built by the application itself, from the three colors it owns.
    pub fn new(background: Rgb, foreground: Rgb, accent: Rgb) -> (r: PaletteSeed)
        ensures
            r@ == (SeedView {
                background,
                foreground,
                accent,
                selection: None,
                muted: None,
                error: None,
                surface_light: None,
                surface_dark: None,
                mode: None,
            }),
    {
        PaletteSeed {
            background,
            foreground,
            accent,
            selection: None,
            muted: None,
            error: None,
            surface_light: None,
            surface_dark: None,
            mode: None,
        }
    }

    pub fn background(&self) -> (r: Rgb)
        ensures
            r == self@.background,
    {
        self.background
    }

    pub fn foreground(&self) -> (r: Rgb)
        ensures
            r == self@.foreground,
    {
        self.foreground
    }

    pub fn accent(&self) -> (r: Rgb)
        ensures
            r == self@.accent,
    {
        self.accent
    }

    /// The ground behind selected content. Defaults to the accent.
    pub fn with_selection(self, color: Rgb) -> (r: PaletteSeed)
        ensures
            r@ == (SeedView { selection: Some(color), ..self@ }),
    {
        PaletteSeed { selection: Some(color), ..self }
    }

    /// De-emphasized content. Defaults to the foreground.
    pub fn with_muted(self, color: Rgb) -> (r: PaletteSeed)
        ensures
            r@ == (SeedView { muted: Some(color), ..self@ }),
    {
        PaletteSeed { muted: Some(color), ..self }
    }

    /// The color that signals something went wrong. Defaults to a documented red.
    pub fn with_error(self, color: Rgb) -> (r: PaletteSeed)
        ensures
            r@ == (SeedView { error: Some(color), ..self@ }),
    {
        PaletteSeed { error: Some(color), ..self }
    }

    /// The raised surface. Defaults to a lighter step of the background's own ramp.
    pub fn with_surface_light(self, color: Rgb) -> (r: PaletteSeed)
        ensures
            r@ == (SeedView { surface_light: Some(color), ..self@ }),
    {
        PaletteSeed { surface_light: Some(color), ..self }
    }

    /// The recessed surface. Defaults to a darker step of the background's own ramp.
    pub fn with_surface_dark(self, color: Rgb) -> (r: PaletteSeed)
        ensures
            r@ == (SeedView { surface_dark: Some(color), ..self@ }),
    {
        PaletteSeed { surface_dark: Some(color), ..self }
    }

    /// The mode the palette reads as, instead of the one inferred from the background's tone.
    pub fn with_mode(self, mode: Mode) -> (r: PaletteSeed)
        ensures
            r@ == (SeedView { mode: Some(mode), ..self@ }),
    {
        PaletteSeed { mode: Some(mode), ..self }
    }

    /// The mode the palette reads as: the one it states, or `inferred` from its background.
    pub fn mode_or(&self, inferred: Mode) -> (r: Mode)
        ensures
            r == seed_mode(self@, inferred),
    {
        match self.mode {
            Some(mode) => mode,
            None => inferred,
        }
    }

    /// Every theme key this basic palette reads as, as [`completed`] states it.
    pub fn derived_colors(&self, steps: SurfaceSteps) -> (r: ThemeColors)
        ensures
            r == completed(self@, steps),
    {
        let background = self.background;
        let foreground = self.foreground;
        let ramp = Ramp::of(background);
        let error = match self.error {
            Some(color) => color,
            None => default_error_color(),
        };
        let dark_background = match self.surface_dark {
            Some(color) => color,
            None => ramp.tone(steps.dark),
        };
        let lighter_background = match self.surface_light {
            Some(color) => color,
            None => ramp.tone(steps.lighter),
        };
        ThemeColors {
            accent: self.accent,
            selection: match self.selection {
                Some(color) => color,
                None => self.accent,
            },
            muted: match self.muted {
                Some(color) => color,
                None => foreground,
            },
            background,
            dark_background,
            darker_background: ramp.tone(steps.darker),
            lighter_background,
            foreground,
            dark_foreground: foreground,
            light_foreground: foreground,
            bright_foreground: foreground,
            red: error,
            dark_red: error,
            bright_red: error,
            yellow: foreground,
            dark_yellow: foreground,
            bright_yellow: foreground,
            green: foreground,
            dark_green: foreground,
            bright_green: foreground,
            cyan: foreground,
            dark_cyan: foreground,
            bright_cyan: foreground,
            blue: foreground,
            dark_blue: foreground,
            bright_blue: foreground,
            magenta: foreground,
            dark_magenta: foreground,
            bright_magenta: foreground,
            orange: None,
            dark_orange: None,
            bright_orange: None,
            brown: None,
            dark_brown: None,
            bright_brown: None,
        }
    }

    /// The extended legible palette this basic one reads as: the mode it states (or `inferred`),
    /// every key [`completed`] with the background's `steps`, and the roles `resolve` gives for
    /// the theme those two make.
    pub fn extend_with<R: Fn(Theme) -> Roles>(&self, inferred: Mode, steps: SurfaceSteps, resolve: R) -> (r: Palette)
        requires
            forall|theme: Theme| resolve.requires((theme,)),
        ensures
            r.mode_of() == seed_mode(self@, inferred),
            r.colors_of() == completed(self@, steps),
            call_ensures(resolve, (Theme { mode: r.mode_of(), colors: r.colors_of() },), r.roles_of()),
    {
        let mode = self.mode_or(inferred);
        let colors = self.derived_colors(steps);
        let roles = resolve(Theme { mode, colors });
        Palette { roles, colors, mode }
    }
}

/// The extended legible palette: what an application actually draws with.
///
/// Resolved once from a [`PaletteSeed`]; every color and ramp here already carries the content
/// that reads on it.
#[derive(Debug, Clone, Copy, PartialEq, Eq, Structural)]
pub struct Palette {
    roles: Roles,
    colors: ThemeColors,
    mode: Mode,
}

impl Palette {
    pub closed spec fn roles_of(self) -> Roles {
        self.roles
    }

    pub closed spec fn colors_of(self) -> ThemeColors {
        self.colors
    }

    pub closed spec fn mode_of(self) -> Mode {
        self.mode
    }

    /// The concrete color of a semantic role, such as the accent or the canvas.
    pub fn color(&self, role: Role) -> (r: Rgb)
        ensures
            r == self.roles_of().ground(role),
    {
        self.roles.color(role)
    }

    /// The main content that stays readable on `role`.
    pub fn on(&self, role: Role) -> (r: Rgb)
        ensures
            r == self.roles_of().levels(role).of(Level::Primary),
    {
        self.roles.on(role)
    }

    /// The content of a given weight that reads on `role`.
    pub fn content(&self, role: Role, level: Level) -> (r: Rgb)
        ensures
            r == self.roles_of().levels(role).of(level),
    {
        self.roles.content(role, level)
    }

    /// The tonal ramp a role scales along, from black to white at its hue.
    pub fn ramp(&self, role: Role) -> (r: Ramp)
        ensures
            r.base_color() == self.roles_of().ground(role),
    {
        self.roles.ramp(role)
    }

    /// Whether the palette is built on a dark ground.
    pub fn dark(&self) -> (r: bool)
        ensures
            r == (self.mode_of() == Mode::Dark),
    {
        self.mode.is_dark()
    }

    /// The theme keys the palette was completed to, which content on any color is chosen from.
    pub fn theme_colors(&self) -> (r: ThemeColors)
        ensures
            r == self.colors_of(),
    {
        self.colors
    }

    /// Content that stays readable on `color`, whether or not it plays a role here: the first of
    /// the palette's foregrounds `reads` accepts on it, or what `fallback` gives otherwise.
    pub fn on_color_with<R: Fn(Rgb, Rgb) -> bool, F: Fn(Rgb) -> Rgb>(
        &self,
        color: Rgb,
        reads: R,
        fallback: F,
    ) -> (r: Rgb)
        requires
            forall|candidate: Rgb, g: Rgb| reads.requires((candidate, g)),
            forall|g: Rgb| fallback.requires((g,)),
        ensures
            picked(color, self.colors_of(), reads, fallback, r),
    {
        on_with(color, &self.colors, reads, fallback)
    }
}

/// What an application leaves unstated takes its default: the selection is the accent, muted
/// content, every foreground key and every accent color but the error the foreground, the error
/// and its shades the documented red, the surfaces steps of the background's own ramp, and the
/// optional colors none.
pub proof fn lemma_unstated_keys_take_their_defaults(
    background: Rgb,
    foreground: Rgb,
    accent: Rgb,
    steps: SurfaceSteps,
)
    ensures
        ({
            let seed = SeedView {
                background,
                foreground,
                accent,
                selection: None,
                muted: None,
                error: None,
                surface_light: None,
                surface_dark: None,
                mode: None,
            };
            let colors = completed(seed, steps);
            &&& colors.accent == accent
            &&& colors.background == background
            &&& colors.foreground == foreground
            &&& colors.selection == accent
            &&& colors.muted == foreground
            &&& colors.red == default_error()
            &&& colors.dark_red == default_error()
            &&& colors.bright_red == default_error()
            &&& colors.lighter_background == background_step(background, steps.lighter)
            &&& colors.dark_background == background_step(background, steps.dark)
            &&& colors.darker_background == background_step(background, steps.darker)
            &&& colors.dark_foreground == foreground
            &&& colors.light_foreground == foreground
            &&& colors.bright_foreground == foreground
            &&& colors.yellow == foreground
            &&& colors.dark_yellow == foreground
            &&& colors.bright_yellow == foreground
            &&& colors.green == foreground
            &&& colors.dark_green == foreground
            &&& colors.bright_green == foreground
            &&& colors.cyan == foreground
            &&& colors.dark_cyan == foreground
            &&& colors.bright_cyan == foreground
            &&& colors.blue == foreground
            &&& colors.dark_blue == foreground
            &&& colors.bright_blue == foreground
            &&& colors.magenta == foreground
            &&& colors.dark_magenta == foreground
            &&& colors.bright_magenta == foreground
            &&& colors.orange is None && colors.dark_orange is None && colors.bright_orange is None
            &&& colors.brown is None && colors.dark_brown is None && colors.bright_brown is None
        }),
{
}

/// What a basic palette states wins over every default.
pub proof fn lemma_stated_keys_are_kept(seed: SeedView, steps: SurfaceSteps)
    ensures
        seed.selection matches Some(c) ==> completed(seed, steps).selection == c,
        seed.muted matches Some(c) ==> completed(seed, steps).muted == c,
        seed.error matches Some(c) ==> completed(seed, steps).red == c
            && completed(seed, steps).dark_red == c && completed(seed, steps).bright_red == c,
        seed.surface_light matches Some(c) ==> completed(seed, steps).lighter_background == c,
        seed.surface_dark matches Some(c) ==> completed(seed, steps).dark_background == c,
        completed(seed, steps).background == seed.background,
        completed(seed, steps).foreground == seed.foreground,
        completed(seed, steps).accent == seed.accent,
{
}

/// A basic palette taken from a theme carries the mode the theme declares, whatever its
/// background's tone would suggest.
pub proof fn lemma_a_theme_palette_keeps_the_declared_mode(theme: Theme, inferred: Mode)
    ensures
        seed_mode(seed_of_theme(theme), inferred) == theme.mode,
{
}

/// A mode the application states wins over the one inferred from the background; without one,
/// the inferred mode is taken.
pub proof fn lemma_a_stated_mode_overrides_the_inferred_one(seed: SeedView, mode: Mode, inferred: Mode)
    ensures
        seed_mode(SeedView { mode: Some(mode), ..seed }, inferred) == mode,
        seed.mode is None ==> seed_mode(seed, inferred) == inferred,
{
}

/// The keys a theme's roles are placed from — the background and the two surfaces around it, the
/// accent, selection, muted and error colors — and the foreground content is tried first with.
/// Two themes that agree on these and on their mode place every ground alike.
pub open spec fn role_keys_agree(one: ThemeColors, other: ThemeColors) -> bool {
    &&& one.background == other.background
    &&& one.lighter_background == other.lighter_background
    &&& one.dark_background == other.dark_background
    &&& one.accent == other.accent
    &&& one.selection == other.selection
    &&& one.muted == other.muted
    &&& one.red == other.red
    &&& one.foreground == other.foreground
}

/// A basic palette taken from a theme reads as that theme wherever its roles are concerned: it
/// keeps the theme's mode and every key the roles are placed from, so with the same placed
/// grounds every role resolves to the color the theme itself resolves it to.
pub proof fn lemma_a_theme_seed_resolves_its_roles_as_the_theme(
    theme: Theme,
    inferred: Mode,
    steps: SurfaceSteps,
    grounds: Grounds,
)
    ensures
        ({
            let seed = seed_of_theme(theme);
            let extended = Theme { mode: seed_mode(seed, inferred), colors: completed(seed, steps) };
            &&& extended.mode == theme.mode
            &&& role_keys_agree(extended.colors, theme.colors)
            &&& forall|role: Role| #[trigger] role_ground(extended, grounds, role) == role_ground(theme, grounds, role)
        }),
{
}

} // verus!
