//! The color keys `colors.toml` declares, handed over as they are — with one completion: a shade
//! the theme leaves out is derived from the color it belongs to, so every color a theme brings has
//! one and no consumer has to decide what to do about a hole.

use vstd::prelude::*;

use super::error::{ThemeError, ThemeErrorView};
use super::rgb::{color_of_text, is_color_text, Rgb};
use super::table::{parsed_table, table_entry, toml_table_entries, TomlEntries};

verus! {

/// `orange` and `brown` are optional because part of the Omarchy catalog omits them; their shades
/// follow them, since a shade of a color the theme never declared means nothing.
///
/// Each color comes as a family of three, in the order they read: the color itself, its dark shade
/// and its bright one. Every shade is taken from the theme when it declares it and derived from the
/// color when it does not.
///
/// Keys that integrate with other applications (`hyprland_active_border`, …) are ignored: they are
/// not part of the color contract and carry forms this domain does not read.
#[derive(Debug, Clone, Copy, PartialEq, Eq, Structural)]
pub struct ThemeColors {
    pub accent: Rgb,
    pub selection: Rgb,
    pub muted: Rgb,

    pub background: Rgb,
    pub dark_background: Rgb,
    pub darker_background: Rgb,
    pub lighter_background: Rgb,

    pub foreground: Rgb,
    pub dark_foreground: Rgb,
    pub light_foreground: Rgb,
    pub bright_foreground: Rgb,

    pub red: Rgb,
    pub dark_red: Rgb,
    pub bright_red: Rgb,

    pub yellow: Rgb,
    pub dark_yellow: Rgb,
    pub bright_yellow: Rgb,

    pub green: Rgb,
    pub dark_green: Rgb,
    pub bright_green: Rgb,

    pub cyan: Rgb,
    pub dark_cyan: Rgb,
    pub bright_cyan: Rgb,

    pub blue: Rgb,
    pub dark_blue: Rgb,
    pub bright_blue: Rgb,

    pub magenta: Rgb,
    pub dark_magenta: Rgb,
    pub bright_magenta: Rgb,

    pub orange: Option<Rgb>,
    pub dark_orange: Option<Rgb>,
    pub bright_orange: Option<Rgb>,

    pub brown: Option<Rgb>,
    pub dark_brown: Option<Rgb>,
    pub bright_brown: Option<Rgb>,
}

/// What the key `key` is worth as a color: `None` when the table leaves it out, otherwise the
/// color it writes or the error that says why it is not one.
pub open spec fn lookup(entries: TomlEntries, key: Seq<char>) -> Option<Result<Rgb, ThemeErrorView>> {
    if !entries.contains_key(key) {
        None
    } else {
        Some(
            match entries[key] {
                Ok(text) => if is_color_text(text) {
                    Ok(color_of_text(text))
                } else {
                    Err(ThemeErrorView::InvalidColor(key, text))
                },
                Err(rendered) => Err(ThemeErrorView::InvalidColor(key, rendered)),
            },
        )
    }
}

/// The color `key` declares, if it declares a valid one.
pub open spec fn declared(entries: TomlEntries, key: Seq<char>) -> Option<Rgb> {
    match lookup(entries, key) {
        Some(Ok(color)) => Some(color),
        _ => None,
    }
}

/// Why a key the contract requires is unusable: missing, or not a color.
pub open spec fn required_error(entries: TomlEntries, key: Seq<char>) -> Option<ThemeErrorView> {
    match lookup(entries, key) {
        None => Some(ThemeErrorView::MissingKey(key)),
        Some(Err(error)) => Some(error),
        Some(Ok(_)) => None,
    }
}

/// Why an optional key is unusable: only when it is there and not a color.
pub open spec fn optional_error(entries: TomlEntries, key: Seq<char>) -> Option<ThemeErrorView> {
    match lookup(entries, key) {
        Some(Err(error)) => Some(error),
        _ => None,
    }
}

/// The shade of an optional color is read only when the color itself is there.
pub open spec fn optional_shade_error(entries: TomlEntries, base: Seq<char>, key: Seq<char>) -> Option<ThemeErrorView> {
    if entries.contains_key(base) {
        optional_error(entries, key)
    } else {
        None
    }
}

/// The first of two checks that fails.
pub open spec fn either(first: Option<ThemeErrorView>, then: Option<ThemeErrorView>) -> Option<ThemeErrorView> {
    if first is Some {
        first
    } else {
        then
    }
}

/// The error a table is refused with: the first unusable key, in the order the keys are read —
/// the six colors, the two optional ones, the ground and text keys, then each shade.
pub open spec fn colors_error(entries: TomlEntries) -> Option<ThemeErrorView> {
    either(required_error(entries, "red"@),
    either(required_error(entries, "yellow"@),
    either(required_error(entries, "green"@),
    either(required_error(entries, "cyan"@),
    either(required_error(entries, "blue"@),
    either(required_error(entries, "magenta"@),
    either(optional_error(entries, "orange"@),
    either(optional_error(entries, "brown"@),
    either(required_error(entries, "accent"@),
    either(required_error(entries, "selection"@),
    either(required_error(entries, "muted"@),
    either(required_error(entries, "background"@),
    either(required_error(entries, "dark_background"@),
    either(required_error(entries, "darker_background"@),
    either(required_error(entries, "lighter_background"@),
    either(required_error(entries, "foreground"@),
    either(required_error(entries, "dark_foreground"@),
    either(required_error(entries, "light_foreground"@),
    either(required_error(entries, "bright_foreground"@),
    either(optional_error(entries, "dark_red"@),
    either(optional_error(entries, "bright_red"@),
    either(optional_error(entries, "dark_yellow"@),
    either(optional_error(entries, "bright_yellow"@),
    either(optional_error(entries, "dark_green"@),
    either(optional_error(entries, "bright_green"@),
    either(optional_error(entries, "dark_cyan"@),
    either(optional_error(entries, "bright_cyan"@),
    either(optional_error(entries, "dark_blue"@),
    either(optional_error(entries, "bright_blue"@),
    either(optional_error(entries, "dark_magenta"@),
    either(optional_error(entries, "bright_magenta"@),
    either(optional_shade_error(entries, "orange"@, "dark_orange"@),
    either(optional_shade_error(entries, "orange"@, "bright_orange"@),
    either(optional_shade_error(entries, "brown"@, "dark_brown"@),
    optional_shade_error(entries, "brown"@, "bright_brown"@)))))))))))))))))))))))))))))))))))
}

/// A shade: the one declared, when the theme tells it apart from its color; otherwise one that
/// `derive` gives for the color.
pub open spec fn shade_of<F: Fn(Rgb) -> Rgb>(declared: Option<Rgb>, base: Rgb, derive: F, shade: Rgb) -> bool {
    match declared {
        Some(color) if color != base => shade == color,
        _ => call_ensures(derive, (base,), shade),
    }
}

/// The same, for the shade of an optional color: no color, no shade.
pub open spec fn optional_shade_of<F: Fn(Rgb) -> Rgb>(
    declared: Option<Rgb>,
    base: Option<Rgb>,
    derive: F,
    shade: Option<Rgb>,
) -> bool {
    match base {
        None => shade is None,
        Some(base) => shade matches Some(s) && shade_of(declared, base, derive, s),
    }
}

/// The colors a valid table reads as.
pub open spec fn colors_from<D: Fn(Rgb) -> Rgb, B: Fn(Rgb) -> Rgb>(
    entries: TomlEntries,
    darker: D,
    brighter: B,
    colors: ThemeColors,
) -> bool {
    &&& colors.accent == declared(entries, "accent"@)->0
    &&& colors.selection == declared(entries, "selection"@)->0
    &&& colors.muted == declared(entries, "muted"@)->0
    &&& colors.background == declared(entries, "background"@)->0
    &&& colors.dark_background == declared(entries, "dark_background"@)->0
    &&& colors.darker_background == declared(entries, "darker_background"@)->0
    &&& colors.lighter_background == declared(entries, "lighter_background"@)->0
    &&& colors.foreground == declared(entries, "foreground"@)->0
    &&& colors.dark_foreground == declared(entries, "dark_foreground"@)->0
    &&& colors.light_foreground == declared(entries, "light_foreground"@)->0
    &&& colors.bright_foreground == declared(entries, "bright_foreground"@)->0
    &&& colors.red == declared(entries, "red"@)->0
    &&& shade_of(declared(entries, "dark_red"@), colors.red, darker, colors.dark_red)
    &&& shade_of(declared(entries, "bright_red"@), colors.red, brighter, colors.bright_red)
    &&& colors.yellow == declared(entries, "yellow"@)->0
    &&& shade_of(declared(entries, "dark_yellow"@), colors.yellow, darker, colors.dark_yellow)
    &&& shade_of(declared(entries, "bright_yellow"@), colors.yellow, brighter, colors.bright_yellow)
    &&& colors.green == declared(entries, "green"@)->0
    &&& shade_of(declared(entries, "dark_green"@), colors.green, darker, colors.dark_green)
    &&& shade_of(declared(entries, "bright_green"@), colors.green, brighter, colors.bright_green)
    &&& colors.cyan == declared(entries, "cyan"@)->0
    &&& shade_of(declared(entries, "dark_cyan"@), colors.cyan, darker, colors.dark_cyan)
    &&& shade_of(declared(entries, "bright_cyan"@), colors.cyan, brighter, colors.bright_cyan)
    &&& colors.blue == declared(entries, "blue"@)->0
    &&& shade_of(declared(entries, "dark_blue"@), colors.blue, darker, colors.dark_blue)
    &&& shade_of(declared(entries, "bright_blue"@), colors.blue, brighter, colors.bright_blue)
    &&& colors.magenta == declared(entries, "magenta"@)->0
    &&& shade_of(declared(entries, "dark_magenta"@), colors.magenta, darker, colors.dark_magenta)
    &&& shade_of(declared(entries, "bright_magenta"@), colors.magenta, brighter, colors.bright_magenta)
    &&& colors.orange == declared(entries, "orange"@)
    &&& optional_shade_of(declared(entries, "dark_orange"@), colors.orange, darker, colors.dark_orange)
    &&& optional_shade_of(declared(entries, "bright_orange"@), colors.orange, brighter, colors.bright_orange)
    &&& colors.brown == declared(entries, "brown"@)
    &&& optional_shade_of(declared(entries, "dark_brown"@), colors.brown, darker, colors.dark_brown)
    &&& optional_shade_of(declared(entries, "bright_brown"@), colors.brown, brighter, colors.bright_brown)
}

fn lookup_color(table: &toml::Table, key: &'static str) -> (r: Option<Result<Rgb, ThemeError>>)
    requires
        parsed_table(*table),
    ensures
        match (r, lookup(toml_table_entries(*table), key@)) {
            (None, None) => true,
            (Some(Ok(color)), Some(Ok(expected))) => color == expected,
            (Some(Err(error)), Some(Err(expected))) => error@ == expected,
            _ => false,
        },
{
    match table_entry(table, key) {
        None => None,
        Some(Ok(text)) => Some(Rgb::parse(key, text.as_str())),
        Some(Err(rendered)) => Some(Err(ThemeError::InvalidColor(key, rendered))),
    }
}

fn required(table: &toml::Table, key: &'static str) -> (r: Result<Rgb, ThemeError>)
    requires
        parsed_table(*table),
    ensures
        match required_error(toml_table_entries(*table), key@) {
            Some(expected) => (r matches Err(error) && error@ == expected),
            None => r == Ok::<Rgb, ThemeError>(declared(toml_table_entries(*table), key@)->0),
        },
{
    match lookup_color(table, key) {
        None => Err(ThemeError::MissingKey(key)),
        Some(found) => found,
    }
}

fn optional(table: &toml::Table, key: &'static str) -> (r: Result<Option<Rgb>, ThemeError>)
    requires
        parsed_table(*table),
    ensures
        match optional_error(toml_table_entries(*table), key@) {
            Some(expected) => (r matches Err(error) && error@ == expected),
            None => r == Ok::<Option<Rgb>, ThemeError>(declared(toml_table_entries(*table), key@)),
        },
{
    match lookup_color(table, key) {
        None => Ok(None),
        Some(Ok(color)) => Ok(Some(color)),
        Some(Err(error)) => Err(error),
    }
}

/// The shade `key` names, read when the theme declares it and derived from `base` with `derive`
/// otherwise. A shade declared identical to the color it belongs to has not been told apart from
/// it, so the derived one stands in.
fn shade<F: Fn(Rgb) -> Rgb>(table: &toml::Table, key: &'static str, base: Rgb, derive: &F) -> (r: Result<Rgb, ThemeError>)
    requires
        parsed_table(*table),
        derive.requires((base,)),
    ensures
        match optional_error(toml_table_entries(*table), key@) {
            Some(expected) => (r matches Err(error) && error@ == expected),
            None => (r matches Ok(shade) && shade_of(declared(toml_table_entries(*table), key@), base, *derive, shade)),
        },
{
    let declared = optional(table, key)?;
    match declared {
        Some(color) if color != base => Ok(color),
        _ => Ok(derive(base)),
    }
}

/// The same, for a shade whose color is itself optional: no color, no shade.
fn optional_shade<F: Fn(Rgb) -> Rgb>(
    table: &toml::Table,
    key: &'static str,
    base: Option<Rgb>,
    derive: &F,
) -> (r: Result<Option<Rgb>, ThemeError>)
    requires
        parsed_table(*table),
        forall|c: Rgb| derive.requires((c,)),
    ensures
        match (base, optional_error(toml_table_entries(*table), key@)) {
            (Some(_), Some(expected)) => (r matches Err(error) && error@ == expected),
            _ => (r matches Ok(shade) && optional_shade_of(declared(toml_table_entries(*table), key@), base, *derive, shade)),
        },
{
    match base {
        None => Ok(None),
        Some(base) => match shade(table, key, base, derive) {
            Ok(color) => Ok(Some(color)),
            Err(error) => Err(error),
        },
    }
}

impl ThemeColors {
    /// The colors a theme's table declares, for a table [`parse_table`](super::table::parse_table)
    /// read. Shades the theme leaves out, or declares equal to their color, come from `darker` and
    /// `brighter` applied to that color.
    pub fn from_table<D: Fn(Rgb) -> Rgb, B: Fn(Rgb) -> Rgb>(table: &toml::Table, darker: D, brighter: B) -> (r: Result<ThemeColors, ThemeError>)
        requires
            parsed_table(*table),
            forall|c: Rgb| darker.requires((c,)),
            forall|c: Rgb| brighter.requires((c,)),
        ensures
            match colors_error(toml_table_entries(*table)) {
                Some(expected) => (r matches Err(error) && error@ == expected),
                None => (r matches Ok(colors) && colors_from(toml_table_entries(*table), darker, brighter, colors)),
            },
    {
        let red = required(table, "red")?;
        let yellow = required(table, "yellow")?;
        let green = required(table, "green")?;
        let cyan = required(table, "cyan")?;
        let blue = required(table, "blue")?;
        let magenta = required(table, "magenta")?;
        let orange = optional(table, "orange")?;
        let brown = optional(table, "brown")?;
        let accent = required(table, "accent")?;
        let selection = required(table, "selection")?;
        let muted = required(table, "muted")?;
        let background = required(table, "background")?;
        let dark_background = required(table, "dark_background")?;
        let darker_background = required(table, "darker_background")?;
        let lighter_background = required(table, "lighter_background")?;
        let foreground = required(table, "foreground")?;
        let dark_foreground = required(table, "dark_foreground")?;
        let light_foreground = required(table, "light_foreground")?;
        let bright_foreground = required(table, "bright_foreground")?;
        let dark_red = shade(table, "dark_red", red, &darker)?;
        let bright_red = shade(table, "bright_red", red, &brighter)?;
        let dark_yellow = shade(table, "dark_yellow", yellow, &darker)?;
        let bright_yellow = shade(table, "bright_yellow", yellow, &brighter)?;
        let dark_green = shade(table, "dark_green", green, &darker)?;
        let bright_green = shade(table, "bright_green", green, &brighter)?;
        let dark_cyan = shade(table, "dark_cyan", cyan, &darker)?;
        let bright_cyan = shade(table, "bright_cyan", cyan, &brighter)?;
        let dark_blue = shade(table, "dark_blue", blue, &darker)?;
        let bright_blue = shade(table, "bright_blue", blue, &brighter)?;
        let dark_magenta = shade(table, "dark_magenta", magenta, &darker)?;
        let bright_magenta = shade(table, "bright_magenta", magenta, &brighter)?;
        let dark_orange = optional_shade(table, "dark_orange", orange, &darker)?;
        let bright_orange = optional_shade(table, "bright_orange", orange, &brighter)?;
        let dark_brown = optional_shade(table, "dark_brown", brown, &darker)?;
        let bright_brown = optional_shade(table, "bright_brown", brown, &brighter)?;
        Ok(ThemeColors {
            accent,
            selection,
            muted,
            background,
            dark_background,
            darker_background,
            lighter_background,
            foreground,
            dark_foreground,
            light_foreground,
            bright_foreground,
            red,
            dark_red,
            bright_red,
            yellow,
            dark_yellow,
            bright_yellow,
            green,
            dark_green,
            bright_green,
            cyan,
            dark_cyan,
            bright_cyan,
            blue,
            dark_blue,
            bright_blue,
            magenta,
            dark_magenta,
            bright_magenta,
            orange,
            dark_orange,
            bright_orange,
            brown,
            dark_brown,
            bright_brown,
        })
    }
}

/// Every key is read from its own name. A `dark_*` shade the theme tells apart from its color is
/// kept, and one it leaves out or declares equal to its color is `darker` of that color; a
/// `bright_*` shade likewise with `brighter`. The optional colors have shades only when declared.
pub proof fn lemma_each_key_and_shade_comes_from_its_own_name<D: Fn(Rgb) -> Rgb, B: Fn(Rgb) -> Rgb>(
    entries: TomlEntries,
    darker: D,
    brighter: B,
    colors: ThemeColors,
)
    requires
        colors_error(entries) is None,
        colors_from(entries, darker, brighter, colors),
    ensures
        declared(entries, "accent"@) == Some(colors.accent),
        declared(entries, "selection"@) == Some(colors.selection),
        declared(entries, "muted"@) == Some(colors.muted),
        declared(entries, "background"@) == Some(colors.background),
        declared(entries, "dark_background"@) == Some(colors.dark_background),
        declared(entries, "darker_background"@) == Some(colors.darker_background),
        declared(entries, "lighter_background"@) == Some(colors.lighter_background),
        declared(entries, "foreground"@) == Some(colors.foreground),
        declared(entries, "dark_foreground"@) == Some(colors.dark_foreground),
        declared(entries, "light_foreground"@) == Some(colors.light_foreground),
        declared(entries, "bright_foreground"@) == Some(colors.bright_foreground),
        declared(entries, "red"@) == Some(colors.red),
        declared(entries, "yellow"@) == Some(colors.yellow),
        declared(entries, "green"@) == Some(colors.green),
        declared(entries, "cyan"@) == Some(colors.cyan),
        declared(entries, "blue"@) == Some(colors.blue),
        declared(entries, "magenta"@) == Some(colors.magenta),
        match declared(entries, "dark_red"@) {
            Some(s) if s != colors.red => colors.dark_red == s,
            _ => call_ensures(darker, (colors.red,), colors.dark_red),
        },
        match declared(entries, "bright_red"@) {
            Some(s) if s != colors.red => colors.bright_red == s,
            _ => call_ensures(brighter, (colors.red,), colors.bright_red),
        },
        match declared(entries, "dark_yellow"@) {
            Some(s) if s != colors.yellow => colors.dark_yellow == s,
            _ => call_ensures(darker, (colors.yellow,), colors.dark_yellow),
        },
        match declared(entries, "bright_yellow"@) {
            Some(s) if s != colors.yellow => colors.bright_yellow == s,
            _ => call_ensures(brighter, (colors.yellow,), colors.bright_yellow),
        },
        match declared(entries, "dark_green"@) {
            Some(s) if s != colors.green => colors.dark_green == s,
            _ => call_ensures(darker, (colors.green,), colors.dark_green),
        },
        match declared(entries, "bright_green"@) {
            Some(s) if s != colors.green => colors.bright_green == s,
            _ => call_ensures(brighter, (colors.green,), colors.bright_green),
        },
        match declared(entries, "dark_cyan"@) {
            Some(s) if s != colors.cyan => colors.dark_cyan == s,
            _ => call_ensures(darker, (colors.cyan,), colors.dark_cyan),
        },
        match declared(entries, "bright_cyan"@) {
            Some(s) if s != colors.cyan => colors.bright_cyan == s,
            _ => call_ensures(brighter, (colors.cyan,), colors.bright_cyan),
        },
        match declared(entries, "dark_blue"@) {
            Some(s) if s != colors.blue => colors.dark_blue == s,
            _ => call_ensures(darker, (colors.blue,), colors.dark_blue),
        },
        match declared(entries, "bright_blue"@) {
            Some(s) if s != colors.blue => colors.bright_blue == s,
            _ => call_ensures(brighter, (colors.blue,), colors.bright_blue),
        },
        match declared(entries, "dark_magenta"@) {
            Some(s) if s != colors.magenta => colors.dark_magenta == s,
            _ => call_ensures(darker, (colors.magenta,), colors.dark_magenta),
        },
        match declared(entries, "bright_magenta"@) {
            Some(s) if s != colors.magenta => colors.bright_magenta == s,
            _ => call_ensures(brighter, (colors.magenta,), colors.bright_magenta),
        },
        colors.orange == declared(entries, "orange"@),
        colors.orange is None ==> colors.dark_orange is None,
        colors.orange matches Some(base) ==> (colors.dark_orange matches Some(shade) && match declared(entries, "dark_orange"@) {
            Some(s) if s != base => shade == s,
            _ => call_ensures(darker, (base,), shade),
        }),
        colors.orange is None ==> colors.bright_orange is None,
        colors.orange matches Some(base) ==> (colors.bright_orange matches Some(shade) && match declared(entries, "bright_orange"@) {
            Some(s) if s != base => shade == s,
            _ => call_ensures(brighter, (base,), shade),
        }),
        colors.brown == declared(entries, "brown"@),
        colors.brown is None ==> colors.dark_brown is None,
        colors.brown matches Some(base) ==> (colors.dark_brown matches Some(shade) && match declared(entries, "dark_brown"@) {
            Some(s) if s != base => shade == s,
            _ => call_ensures(darker, (base,), shade),
        }),
        colors.brown is None ==> colors.bright_brown is None,
        colors.brown matches Some(base) ==> (colors.bright_brown matches Some(shade) && match declared(entries, "bright_brown"@) {
            Some(s) if s != base => shade == s,
            _ => call_ensures(brighter, (base,), shade),
        }),
{
}

/// A table is accepted exactly when every key the contract requires declares a color, every
/// optional color and every shade of the six families is either left out or a color, and the
/// shades of orange and brown are either left out or colors whenever their color is declared —
/// a shade of a color the theme never declared is not read at all.
pub proof fn lemma_a_table_is_accepted_exactly_when_every_read_key_is_usable(entries: TomlEntries)
    ensures
        colors_error(entries) is None <==> {
        &&& lookup(entries, "red"@) matches Some(Ok(_))
        &&& lookup(entries, "yellow"@) matches Some(Ok(_))
        &&& lookup(entries, "green"@) matches Some(Ok(_))
        &&& lookup(entries, "cyan"@) matches Some(Ok(_))
        &&& lookup(entries, "blue"@) matches Some(Ok(_))
        &&& lookup(entries, "magenta"@) matches Some(Ok(_))
        &&& lookup(entries, "accent"@) matches Some(Ok(_))
        &&& lookup(entries, "selection"@) matches Some(Ok(_))
        &&& lookup(entries, "muted"@) matches Some(Ok(_))
        &&& lookup(entries, "background"@) matches Some(Ok(_))
        &&& lookup(entries, "dark_background"@) matches Some(Ok(_))
        &&& lookup(entries, "darker_background"@) matches Some(Ok(_))
        &&& lookup(entries, "lighter_background"@) matches Some(Ok(_))
        &&& lookup(entries, "foreground"@) matches Some(Ok(_))
        &&& lookup(entries, "dark_foreground"@) matches Some(Ok(_))
        &&& lookup(entries, "light_foreground"@) matches Some(Ok(_))
        &&& lookup(entries, "bright_foreground"@) matches Some(Ok(_))
        &&& !(lookup(entries, "orange"@) matches Some(Err(_)))
        &&& !(lookup(entries, "brown"@) matches Some(Err(_)))
        &&& !(lookup(entries, "dark_red"@) matches Some(Err(_)))
        &&& !(lookup(entries, "bright_red"@) matches Some(Err(_)))
        &&& !(lookup(entries, "dark_yellow"@) matches Some(Err(_)))
        &&& !(lookup(entries, "bright_yellow"@) matches Some(Err(_)))
        &&& !(lookup(entries, "dark_green"@) matches Some(Err(_)))
        &&& !(lookup(entries, "bright_green"@) matches Some(Err(_)))
        &&& !(lookup(entries, "dark_cyan"@) matches Some(Err(_)))
        &&& !(lookup(entries, "bright_cyan"@) matches Some(Err(_)))
        &&& !(lookup(entries, "dark_blue"@) matches Some(Err(_)))
        &&& !(lookup(entries, "bright_blue"@) matches Some(Err(_)))
        &&& !(lookup(entries, "dark_magenta"@) matches Some(Err(_)))
        &&& !(lookup(entries, "bright_magenta"@) matches Some(Err(_)))
        &&& (entries.contains_key("orange"@) ==> !(lookup(entries, "dark_orange"@) matches Some(Err(_))))
        &&& (entries.contains_key("orange"@) ==> !(lookup(entries, "bright_orange"@) matches Some(Err(_))))
        &&& (entries.contains_key("brown"@) ==> !(lookup(entries, "dark_brown"@) matches Some(Err(_))))
        &&& (entries.contains_key("brown"@) ==> !(lookup(entries, "bright_brown"@) matches Some(Err(_))))
        },
{
}

} // verus!
