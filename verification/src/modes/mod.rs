//! MODES — the same theme, taken through a different representation before its roles are
//! resolved.

use vstd::prelude::*;

use crate::color::{black, white};
use crate::theme::{Mode, Rgb, Theme, ThemeColors};

verus! {

/// A way of taking the theme's raw colors before its roles are resolved. Each one yields a full
/// [`Theme`], so every role is recomputed fresh from the transformed base.
#[derive(Debug, Clone, Copy, PartialEq, Eq, Hash, Structural)]
pub enum Representation {
    /// The theme as declared, untouched.
    Original,
    /// Every color's tone reflected, and the theme's mode flipped with it.
    Inverted,
    /// Every color pushed further from the background than it already stood.
    HighContrast,
    /// Every color desaturated: same tone, no hue.
    Mono,
    /// Forced onto a page: white behind, black in front, and every color as its own grey.
    Print,
}

/// The five representations, in the fixed order the bridge reads an index against.
pub open spec fn representation_order() -> Seq<Representation> {
    seq![
        Representation::Original,
        Representation::Inverted,
        Representation::HighContrast,
        Representation::Mono,
        Representation::Print,
    ]
}

impl Representation {
    pub const ALL: [Representation; 5] = [
        Representation::Original,
        Representation::Inverted,
        Representation::HighContrast,
        Representation::Mono,
        Representation::Print,
    ];
}

/// The representation at `index`, in the order of [`Representation::ALL`]. An out-of-range index
/// is not worth failing over: it falls back to `Original`.
pub fn representation_at(index: usize) -> (r: Representation)
    ensures
        index < 5 ==> r == representation_order()[index as int],
        index >= 5 ==> r == Representation::Original,
{
    match index {
        0 => Representation::Original,
        1 => Representation::Inverted,
        2 => Representation::HighContrast,
        3 => Representation::Mono,
        4 => Representation::Print,
        _ => Representation::Original,
    }
}

/// `out` is `color` taken through `f`, and nothing where there was nothing.
pub open spec fn optional_mapped<F: Fn(Rgb) -> Rgb>(f: F, color: Option<Rgb>, out: Option<Rgb>) -> bool {
    match color {
        None => out is None,
        Some(c) => (out matches Some(o) && call_ensures(f, (c,), o)),
    }
}

/// `out` is `colors` with `structure` applied to the colors that carry the page — the grounds,
/// the text and the surfaces the roles rest on — and `accent` to the ones that accent it.
pub open spec fn split_mapped<S: Fn(Rgb) -> Rgb, A: Fn(Rgb) -> Rgb>(
    colors: ThemeColors,
    structure: S,
    accent: A,
    out: ThemeColors,
) -> bool {
    &&& call_ensures(accent, (colors.accent,), out.accent)
    &&& call_ensures(accent, (colors.red,), out.red)
    &&& call_ensures(accent, (colors.dark_red,), out.dark_red)
    &&& call_ensures(accent, (colors.bright_red,), out.bright_red)
    &&& call_ensures(accent, (colors.yellow,), out.yellow)
    &&& call_ensures(accent, (colors.dark_yellow,), out.dark_yellow)
    &&& call_ensures(accent, (colors.bright_yellow,), out.bright_yellow)
    &&& call_ensures(accent, (colors.green,), out.green)
    &&& call_ensures(accent, (colors.dark_green,), out.dark_green)
    &&& call_ensures(accent, (colors.bright_green,), out.bright_green)
    &&& call_ensures(accent, (colors.cyan,), out.cyan)
    &&& call_ensures(accent, (colors.dark_cyan,), out.dark_cyan)
    &&& call_ensures(accent, (colors.bright_cyan,), out.bright_cyan)
    &&& call_ensures(accent, (colors.blue,), out.blue)
    &&& call_ensures(accent, (colors.dark_blue,), out.dark_blue)
    &&& call_ensures(accent, (colors.bright_blue,), out.bright_blue)
    &&& call_ensures(accent, (colors.magenta,), out.magenta)
    &&& call_ensures(accent, (colors.dark_magenta,), out.dark_magenta)
    &&& call_ensures(accent, (colors.bright_magenta,), out.bright_magenta)
    &&& call_ensures(structure, (colors.selection,), out.selection)
    &&& call_ensures(structure, (colors.muted,), out.muted)
    &&& call_ensures(structure, (colors.background,), out.background)
    &&& call_ensures(structure, (colors.dark_background,), out.dark_background)
    &&& call_ensures(structure, (colors.darker_background,), out.darker_background)
    &&& call_ensures(structure, (colors.lighter_background,), out.lighter_background)
    &&& call_ensures(structure, (colors.foreground,), out.foreground)
    &&& call_ensures(structure, (colors.dark_foreground,), out.dark_foreground)
    &&& call_ensures(structure, (colors.light_foreground,), out.light_foreground)
    &&& call_ensures(structure, (colors.bright_foreground,), out.bright_foreground)
    &&& optional_mapped(accent, colors.orange, out.orange)
    &&& optional_mapped(accent, colors.dark_orange, out.dark_orange)
    &&& optional_mapped(accent, colors.bright_orange, out.bright_orange)
    &&& optional_mapped(accent, colors.brown, out.brown)
    &&& optional_mapped(accent, colors.dark_brown, out.dark_brown)
    &&& optional_mapped(accent, colors.bright_brown, out.bright_brown)
}

fn map_optional<F: Fn(Rgb) -> Rgb>(color: Option<Rgb>, f: &F) -> (r: Option<Rgb>)
    requires
        forall|c: Rgb| f.requires((c,)),
    ensures
        optional_mapped(*f, color, r),
{
    match color {
        None => None,
        Some(c) => Some(f(c)),
    }
}

/// Applies `structure` to the colors that carry the page and `accent` to the ones that accent it:
/// the split a representation needs whenever the two cannot take the same transform.
pub fn map_split<S: Fn(Rgb) -> Rgb, A: Fn(Rgb) -> Rgb>(colors: &ThemeColors, structure: &S, accent: &A) -> (r: ThemeColors)
    requires
        forall|c: Rgb| structure.requires((c,)),
        forall|c: Rgb| accent.requires((c,)),
    ensures
        split_mapped(*colors, *structure, *accent, r),
{
    ThemeColors {
        accent: accent(colors.accent),
        selection: structure(colors.selection),
        muted: structure(colors.muted),
        background: structure(colors.background),
        dark_background: structure(colors.dark_background),
        darker_background: structure(colors.darker_background),
        lighter_background: structure(colors.lighter_background),
        foreground: structure(colors.foreground),
        dark_foreground: structure(colors.dark_foreground),
        light_foreground: structure(colors.light_foreground),
        bright_foreground: structure(colors.bright_foreground),
        red: accent(colors.red),
        dark_red: accent(colors.dark_red),
        bright_red: accent(colors.bright_red),
        yellow: accent(colors.yellow),
        dark_yellow: accent(colors.dark_yellow),
        bright_yellow: accent(colors.bright_yellow),
        green: accent(colors.green),
        dark_green: accent(colors.dark_green),
        bright_green: accent(colors.bright_green),
        cyan: accent(colors.cyan),
        dark_cyan: accent(colors.dark_cyan),
        bright_cyan: accent(colors.bright_cyan),
        blue: accent(colors.blue),
        dark_blue: accent(colors.dark_blue),
        bright_blue: accent(colors.bright_blue),
        magenta: accent(colors.magenta),
        dark_magenta: accent(colors.dark_magenta),
        bright_magenta: accent(colors.bright_magenta),
        orange: map_optional(colors.orange, accent),
        dark_orange: map_optional(colors.dark_orange, accent),
        bright_orange: map_optional(colors.bright_orange, accent),
        brown: map_optional(colors.brown, accent),
        dark_brown: map_optional(colors.dark_brown, accent),
        bright_brown: map_optional(colors.bright_brown, accent),
    }
}

/// Applies `f` to every color the theme declares, optional keys included.
pub fn map_colors<F: Fn(Rgb) -> Rgb>(colors: &ThemeColors, f: &F) -> (r: ThemeColors)
    requires
        forall|c: Rgb| f.requires((c,)),
    ensures
        split_mapped(*colors, *f, *f, r),
{
    map_split(colors, f, f)
}

/// Mono: the theme with `flatten` — the color at zero chroma — applied to every color it declares,
/// and its mode kept.
pub fn desaturated<F: Fn(Rgb) -> Rgb>(theme: &Theme, flatten: &F) -> (r: Theme)
    requires
        forall|c: Rgb| flatten.requires((c,)),
    ensures
        r.mode == theme.mode,
        split_mapped(theme.colors, *flatten, *flatten, r.colors),
{
    Theme { mode: theme.mode, colors: map_colors(&theme.colors, flatten) }
}

/// High contrast: the theme with `push` — a color moved further from the background it already
/// stands off — applied to every color it declares, and its mode kept.
pub fn amplified<P: Fn(Rgb) -> Rgb>(theme: &Theme, push: &P) -> (r: Theme)
    requires
        forall|c: Rgb| push.requires((c,)),
    ensures
        r.mode == theme.mode,
        split_mapped(theme.colors, *push, *push, r.colors),
{
    Theme { mode: theme.mode, colors: map_colors(&theme.colors, push) }
}

/// `out` is `color` kept on `ground` by `keep`, and nothing where there was nothing.
pub open spec fn kept_optional<K: Fn(Rgb, Rgb) -> Rgb>(keep: K, ground: Rgb, color: Option<Rgb>, out: Option<Rgb>) -> bool {
    match color {
        None => out is None,
        Some(c) => (out matches Some(o) && call_ensures(keep, (c, ground), o)),
    }
}

/// `out` is `colors` inverted onto `ground`: the colors that carry the page reflected, the accents
/// kept on the new ground.
pub open spec fn inverted_colors<F: Fn(Rgb) -> Rgb, K: Fn(Rgb, Rgb) -> Rgb>(
    colors: ThemeColors,
    reflect: F,
    keep: K,
    ground: Rgb,
    out: ThemeColors,
) -> bool {
    &&& call_ensures(keep, (colors.accent, ground), out.accent)
    &&& call_ensures(keep, (colors.red, ground), out.red)
    &&& call_ensures(keep, (colors.dark_red, ground), out.dark_red)
    &&& call_ensures(keep, (colors.bright_red, ground), out.bright_red)
    &&& call_ensures(keep, (colors.yellow, ground), out.yellow)
    &&& call_ensures(keep, (colors.dark_yellow, ground), out.dark_yellow)
    &&& call_ensures(keep, (colors.bright_yellow, ground), out.bright_yellow)
    &&& call_ensures(keep, (colors.green, ground), out.green)
    &&& call_ensures(keep, (colors.dark_green, ground), out.dark_green)
    &&& call_ensures(keep, (colors.bright_green, ground), out.bright_green)
    &&& call_ensures(keep, (colors.cyan, ground), out.cyan)
    &&& call_ensures(keep, (colors.dark_cyan, ground), out.dark_cyan)
    &&& call_ensures(keep, (colors.bright_cyan, ground), out.bright_cyan)
    &&& call_ensures(keep, (colors.blue, ground), out.blue)
    &&& call_ensures(keep, (colors.dark_blue, ground), out.dark_blue)
    &&& call_ensures(keep, (colors.bright_blue, ground), out.bright_blue)
    &&& call_ensures(keep, (colors.magenta, ground), out.magenta)
    &&& call_ensures(keep, (colors.dark_magenta, ground), out.dark_magenta)
    &&& call_ensures(keep, (colors.bright_magenta, ground), out.bright_magenta)
    &&& call_ensures(reflect, (colors.selection,), out.selection)
    &&& call_ensures(reflect, (colors.muted,), out.muted)
    &&& call_ensures(reflect, (colors.background,), out.background)
    &&& call_ensures(reflect, (colors.dark_background,), out.dark_background)
    &&& call_ensures(reflect, (colors.darker_background,), out.darker_background)
    &&& call_ensures(reflect, (colors.lighter_background,), out.lighter_background)
    &&& call_ensures(reflect, (colors.foreground,), out.foreground)
    &&& call_ensures(reflect, (colors.dark_foreground,), out.dark_foreground)
    &&& call_ensures(reflect, (colors.light_foreground,), out.light_foreground)
    &&& call_ensures(reflect, (colors.bright_foreground,), out.bright_foreground)
    &&& kept_optional(keep, ground, colors.orange, out.orange)
    &&& kept_optional(keep, ground, colors.dark_orange, out.dark_orange)
    &&& kept_optional(keep, ground, colors.bright_orange, out.bright_orange)
    &&& kept_optional(keep, ground, colors.brown, out.brown)
    &&& kept_optional(keep, ground, colors.dark_brown, out.dark_brown)
    &&& kept_optional(keep, ground, colors.bright_brown, out.bright_brown)
}

/// Inverted: the theme read the other way around. Its mode flips; the colors that carry the page
/// take `reflect` (a tone reflected around the middle of the scale); the accents are each `keep`
/// on the ground the reflected background becomes.
pub fn inverted<F: Fn(Rgb) -> Rgb, K: Fn(Rgb, Rgb) -> Rgb>(theme: &Theme, reflect: &F, keep: &K) -> (r: Theme)
    requires
        forall|c: Rgb| reflect.requires((c,)),
        forall|c: Rgb, g: Rgb| keep.requires((c, g)),
    ensures
        r.mode == theme.mode.opposite(),
        exists|ground: Rgb|
            call_ensures(*reflect, (theme.colors.background,), ground)
            && inverted_colors(theme.colors, *reflect, *keep, ground, r.colors),
{
    let ground = reflect(theme.colors.background);
    let accent = |color: Rgb| -> (out: Rgb)
        requires
            keep.requires((color, ground)),
        ensures
            call_ensures(*keep, (color, ground), out),
        { keep(color, ground) };
    let colors = map_split(&theme.colors, reflect, &accent);
    assert(inverted_colors(theme.colors, *reflect, *keep, ground, colors));
    Theme { mode: theme.mode.flipped(), colors }
}

/// The colors of a printed page: `colors` with a pure white background and pure black text.
pub open spec fn on_page(colors: ThemeColors) -> ThemeColors {
    ThemeColors {
        background: white(),
        foreground: black(),
        dark_foreground: black(),
        light_foreground: black(),
        bright_foreground: black(),
        ..colors
    }
}

/// Print: the theme forced onto a white page — pure white behind, pure black text, every other
/// color taken through `flatten` (the grey its own weight gives it), and the mode light.
pub fn printed<F: Fn(Rgb) -> Rgb>(theme: &Theme, flatten: &F) -> (r: Theme)
    requires
        forall|c: Rgb| flatten.requires((c,)),
    ensures
        r.mode == Mode::Light,
        exists|greyed: ThemeColors|
            split_mapped(theme.colors, *flatten, *flatten, greyed) && r.colors == on_page(greyed),
{
    let greyed = map_colors(&theme.colors, flatten);
    let white = Rgb { red: 255, green: 255, blue: 255 };
    let black = Rgb { red: 0, green: 0, blue: 0 };
    let colors = ThemeColors {
        background: white,
        foreground: black,
        dark_foreground: black,
        light_foreground: black,
        bright_foreground: black,
        ..greyed
    };
    assert(colors == on_page(greyed));
    Theme { mode: Mode::Light, colors }
}

/// What `representation` makes of `theme`, given the tone steps each transform takes: `Original`
/// the theme itself; `Inverted` the theme [`inverted`] with `reflect` and `keep`; `HighContrast`
/// every color taken through `push` with the mode kept; `Mono` every color through `flatten` with
/// the mode kept; `Print` the theme [`printed`] with `flatten`.
pub open spec fn represented<F, K, P, M>(
    theme: Theme,
    representation: Representation,
    reflect: F,
    keep: K,
    push: P,
    flatten: M,
    r: Theme,
) -> bool where
    F: Fn(Rgb) -> Rgb,
    K: Fn(Rgb, Rgb) -> Rgb,
    P: Fn(Rgb) -> Rgb,
    M: Fn(Rgb) -> Rgb,
 {
    match representation {
        Representation::Original => r == theme,
        Representation::Inverted => {
            &&& r.mode == theme.mode.opposite()
            &&& exists|ground: Rgb|
                call_ensures(reflect, (theme.colors.background,), ground)
                && inverted_colors(theme.colors, reflect, keep, ground, r.colors)
        },
        Representation::HighContrast => r.mode == theme.mode && split_mapped(theme.colors, push, push, r.colors),
        Representation::Mono => r.mode == theme.mode && split_mapped(theme.colors, flatten, flatten, r.colors),
        Representation::Print => {
            &&& r.mode == Mode::Light
            &&& exists|greyed: ThemeColors|
                split_mapped(theme.colors, flatten, flatten, greyed) && r.colors == on_page(greyed)
        },
    }
}

/// Takes `theme` through `representation`, returning a full theme whose roles resolve as usual.
/// The tone steps come in as functions: `reflect` reflects a tone around the middle of the scale,
/// `keep` keeps an accent clear of a ground, `push` moves a color further from the background,
/// and `flatten` takes a color to zero chroma.
pub fn represent<F, K, P, M>(
    theme: &Theme,
    representation: Representation,
    reflect: &F,
    keep: &K,
    push: &P,
    flatten: &M,
) -> (r: Theme) where
    F: Fn(Rgb) -> Rgb,
    K: Fn(Rgb, Rgb) -> Rgb,
    P: Fn(Rgb) -> Rgb,
    M: Fn(Rgb) -> Rgb,

    requires
        forall|c: Rgb| reflect.requires((c,)),
        forall|c: Rgb, g: Rgb| keep.requires((c, g)),
        forall|c: Rgb| push.requires((c,)),
        forall|c: Rgb| flatten.requires((c,)),
    ensures
        represented(*theme, representation, *reflect, *keep, *push, *flatten, r),
{
    match representation {
        Representation::Original => *theme,
        Representation::Inverted => inverted(theme, reflect, keep),
        Representation::HighContrast => amplified(theme, push),
        Representation::Mono => desaturated(theme, flatten),
        Representation::Print => printed(theme, flatten),
    }
}

/// Original changes nothing, and every other representation yields a theme with the same optional
/// colors declared: a transform never invents orange or brown, nor drops them.
pub proof fn lemma_representations_keep_what_is_declared<F, K, P, M>(
    theme: Theme,
    representation: Representation,
    reflect: F,
    keep: K,
    push: P,
    flatten: M,
    r: Theme,
) where
    F: Fn(Rgb) -> Rgb,
    K: Fn(Rgb, Rgb) -> Rgb,
    P: Fn(Rgb) -> Rgb,
    M: Fn(Rgb) -> Rgb,

    requires
        represented(theme, representation, reflect, keep, push, flatten, r),
    ensures
        representation == Representation::Original ==> r == theme,
        representation == Representation::Inverted ==> r.mode == theme.mode.opposite(),
        representation == Representation::HighContrast ==> r.mode == theme.mode,
        representation == Representation::Mono ==> r.mode == theme.mode,
        representation == Representation::Print ==> r.mode == Mode::Light
            && r.colors.background == white() && r.colors.foreground == black(),
        r.colors.orange is Some <==> theme.colors.orange is Some,
        r.colors.dark_orange is Some <==> theme.colors.dark_orange is Some,
        r.colors.bright_orange is Some <==> theme.colors.bright_orange is Some,
        r.colors.brown is Some <==> theme.colors.brown is Some,
        r.colors.dark_brown is Some <==> theme.colors.dark_brown is Some,
        r.colors.bright_brown is Some <==> theme.colors.bright_brown is Some,
{
    if representation == Representation::Inverted {
        let ground = choose|ground: Rgb|
            call_ensures(reflect, (theme.colors.background,), ground)
            && inverted_colors(theme.colors, reflect, keep, ground, r.colors);
        assert(inverted_colors(theme.colors, reflect, keep, ground, r.colors));
    }
    if representation == Representation::Print {
        let greyed = choose|greyed: ThemeColors|
            split_mapped(theme.colors, flatten, flatten, greyed) && r.colors == on_page(greyed);
        assert(split_mapped(theme.colors, flatten, flatten, greyed));
    }
}

/// A split transform takes every key that carries the page — the selection, the muted color, the
/// four background keys and the four foreground keys — through `structure`, and every accent color
/// through `accent`, the optional ones included where they are declared.
pub proof fn lemma_a_split_maps_every_key_by_its_part<S: Fn(Rgb) -> Rgb, A: Fn(Rgb) -> Rgb>(
    colors: ThemeColors,
    structure: S,
    accent: A,
    out: ThemeColors,
)
    requires
        split_mapped(colors, structure, accent, out),
    ensures
        call_ensures(structure, (colors.selection,), out.selection),
        call_ensures(structure, (colors.muted,), out.muted),
        call_ensures(structure, (colors.background,), out.background),
        call_ensures(structure, (colors.dark_background,), out.dark_background),
        call_ensures(structure, (colors.darker_background,), out.darker_background),
        call_ensures(structure, (colors.lighter_background,), out.lighter_background),
        call_ensures(structure, (colors.foreground,), out.foreground),
        call_ensures(structure, (colors.dark_foreground,), out.dark_foreground),
        call_ensures(structure, (colors.light_foreground,), out.light_foreground),
        call_ensures(structure, (colors.bright_foreground,), out.bright_foreground),
        call_ensures(accent, (colors.accent,), out.accent),
        call_ensures(accent, (colors.red,), out.red),
        call_ensures(accent, (colors.dark_red,), out.dark_red),
        call_ensures(accent, (colors.bright_red,), out.bright_red),
        call_ensures(accent, (colors.yellow,), out.yellow),
        call_ensures(accent, (colors.dark_yellow,), out.dark_yellow),
        call_ensures(accent, (colors.bright_yellow,), out.bright_yellow),
        call_ensures(accent, (colors.green,), out.green),
        call_ensures(accent, (colors.dark_green,), out.dark_green),
        call_ensures(accent, (colors.bright_green,), out.bright_green),
        call_ensures(accent, (colors.cyan,), out.cyan),
        call_ensures(accent, (colors.dark_cyan,), out.dark_cyan),
        call_ensures(accent, (colors.bright_cyan,), out.bright_cyan),
        call_ensures(accent, (colors.blue,), out.blue),
        call_ensures(accent, (colors.dark_blue,), out.dark_blue),
        call_ensures(accent, (colors.bright_blue,), out.bright_blue),
        call_ensures(accent, (colors.magenta,), out.magenta),
        call_ensures(accent, (colors.dark_magenta,), out.dark_magenta),
        call_ensures(accent, (colors.bright_magenta,), out.bright_magenta),
        colors.orange is None ==> out.orange is None,
        colors.orange matches Some(c) ==> (out.orange matches Some(o) && call_ensures(accent, (c,), o)),
        colors.dark_orange is None ==> out.dark_orange is None,
        colors.dark_orange matches Some(c) ==> (out.dark_orange matches Some(o) && call_ensures(accent, (c,), o)),
        colors.bright_orange is None ==> out.bright_orange is None,
        colors.bright_orange matches Some(c) ==> (out.bright_orange matches Some(o) && call_ensures(accent, (c,), o)),
        colors.brown is None ==> out.brown is None,
        colors.brown matches Some(c) ==> (out.brown matches Some(o) && call_ensures(accent, (c,), o)),
        colors.dark_brown is None ==> out.dark_brown is None,
        colors.dark_brown matches Some(c) ==> (out.dark_brown matches Some(o) && call_ensures(accent, (c,), o)),
        colors.bright_brown is None ==> out.bright_brown is None,
        colors.bright_brown matches Some(c) ==> (out.bright_brown matches Some(o) && call_ensures(accent, (c,), o)),
{
}

/// Inverting reflects every key that carries the page — the selection, the muted color, the four
/// background keys and the four foreground keys — with `reflect`, and keeps every accent color on
/// the reflected ground with `keep`; an optional color stays absent where it was absent.
pub proof fn lemma_inversion_reflects_the_page_and_keeps_the_accents<F: Fn(Rgb) -> Rgb, K: Fn(Rgb, Rgb) -> Rgb>(
    colors: ThemeColors,
    reflect: F,
    keep: K,
    ground: Rgb,
    out: ThemeColors,
)
    requires
        inverted_colors(colors, reflect, keep, ground, out),
    ensures
        call_ensures(reflect, (colors.selection,), out.selection),
        call_ensures(reflect, (colors.muted,), out.muted),
        call_ensures(reflect, (colors.background,), out.background),
        call_ensures(reflect, (colors.dark_background,), out.dark_background),
        call_ensures(reflect, (colors.darker_background,), out.darker_background),
        call_ensures(reflect, (colors.lighter_background,), out.lighter_background),
        call_ensures(reflect, (colors.foreground,), out.foreground),
        call_ensures(reflect, (colors.dark_foreground,), out.dark_foreground),
        call_ensures(reflect, (colors.light_foreground,), out.light_foreground),
        call_ensures(reflect, (colors.bright_foreground,), out.bright_foreground),
        call_ensures(keep, (colors.accent, ground), out.accent),
        call_ensures(keep, (colors.red, ground), out.red),
        call_ensures(keep, (colors.dark_red, ground), out.dark_red),
        call_ensures(keep, (colors.bright_red, ground), out.bright_red),
        call_ensures(keep, (colors.yellow, ground), out.yellow),
        call_ensures(keep, (colors.dark_yellow, ground), out.dark_yellow),
        call_ensures(keep, (colors.bright_yellow, ground), out.bright_yellow),
        call_ensures(keep, (colors.green, ground), out.green),
        call_ensures(keep, (colors.dark_green, ground), out.dark_green),
        call_ensures(keep, (colors.bright_green, ground), out.bright_green),
        call_ensures(keep, (colors.cyan, ground), out.cyan),
        call_ensures(keep, (colors.dark_cyan, ground), out.dark_cyan),
        call_ensures(keep, (colors.bright_cyan, ground), out.bright_cyan),
        call_ensures(keep, (colors.blue, ground), out.blue),
        call_ensures(keep, (colors.dark_blue, ground), out.dark_blue),
        call_ensures(keep, (colors.bright_blue, ground), out.bright_blue),
        call_ensures(keep, (colors.magenta, ground), out.magenta),
        call_ensures(keep, (colors.dark_magenta, ground), out.dark_magenta),
        call_ensures(keep, (colors.bright_magenta, ground), out.bright_magenta),
        colors.orange is None ==> out.orange is None,
        colors.orange matches Some(c) ==> (out.orange matches Some(o) && call_ensures(keep, (c, ground), o)),
        colors.dark_orange is None ==> out.dark_orange is None,
        colors.dark_orange matches Some(c) ==> (out.dark_orange matches Some(o) && call_ensures(keep, (c, ground), o)),
        colors.bright_orange is None ==> out.bright_orange is None,
        colors.bright_orange matches Some(c) ==> (out.bright_orange matches Some(o) && call_ensures(keep, (c, ground), o)),
        colors.brown is None ==> out.brown is None,
        colors.brown matches Some(c) ==> (out.brown matches Some(o) && call_ensures(keep, (c, ground), o)),
        colors.dark_brown is None ==> out.dark_brown is None,
        colors.dark_brown matches Some(c) ==> (out.dark_brown matches Some(o) && call_ensures(keep, (c, ground), o)),
        colors.bright_brown is None ==> out.bright_brown is None,
        colors.bright_brown matches Some(c) ==> (out.bright_brown matches Some(o) && call_ensures(keep, (c, ground), o)),
{
}

} // verus!
