//! The values the C bridge hands across: plain structs of bytes and flags, laid out the way the
//! header mirrors them, and built here from a resolved theme.

use vstd::prelude::*;
use vstd::string::StringSliceAdditionalSpecFns;

use crate::color::{role_order, Level, Role, Roles};
use crate::modes::{representation_at, representation_order, Representation};
use crate::theme::{Mode, Rgb, Theme, ThemeColors};

verus! {

/// An RGB color, one byte per channel — the same precision `colors.toml` declares.
#[derive(Debug, Clone, Copy, PartialEq, Eq, Structural)]
pub struct OmarchyColor {
    pub r: u8,
    pub g: u8,
    pub b: u8,
}

/// One role: its own color, and the three weights of content that read on it.
#[derive(Debug, Clone, Copy, PartialEq, Eq, Structural)]
pub struct OmarchyRole {
    pub color: OmarchyColor,
    pub content_main: OmarchyColor,
    pub content_secondary: OmarchyColor,
    pub content_disabled: OmarchyColor,
}

/// How many roles a snapshot carries: one per entry of [`Role::ALL`].
pub const OMARCHY_ROLE_COUNT: usize = 10;

/// One shade of a color: the shade itself and the content that reads on it.
#[derive(Debug, Clone, Copy, PartialEq, Eq, Structural)]
pub struct OmarchyShade {
    pub color: OmarchyColor,
    pub content: OmarchyColor,
}

/// One color of the theme, as the family of three it reads as: the color itself, its dark shade
/// and its bright one. `declared` is false for `orange` and `brown` when the theme omits them, and
/// such a family carries nothing but zeros.
#[derive(Debug, Clone, Copy, PartialEq, Eq, Structural)]
pub struct OmarchyColorFamily {
    pub original: OmarchyShade,
    pub dark: OmarchyShade,
    pub bright: OmarchyShade,
    pub declared: bool,
}

/// How many colors a snapshot carries: the six semantic ones and the two optional ones.
pub const OMARCHY_COLOR_COUNT: usize = 8;

/// How many representations the bridge can name: one per entry of [`Representation::ALL`].
pub const OMARCHY_REPRESENTATION_COUNT: usize = 5;

/// Every role resolved against the theme in force, in the order of [`Role::ALL`], and every color
/// the theme declares, in the order [`color_name`] names them.
#[derive(Debug, Clone, Copy, PartialEq, Eq)]
pub struct OmarchySnapshot {
    pub roles: [OmarchyRole; OMARCHY_ROLE_COUNT],
    pub colors: [OmarchyColorFamily; OMARCHY_COLOR_COUNT],
    pub dark: bool,
}

/// The bridge's form of a color.
pub open spec fn color_of(rgb: Rgb) -> OmarchyColor {
    OmarchyColor { r: rgb.red, g: rgb.green, b: rgb.blue }
}

/// The color a bridge color stands for.
pub open spec fn rgb_of(color: OmarchyColor) -> Rgb {
    Rgb { red: color.r, green: color.g, blue: color.b }
}

/// The bridge's form of a color: the same three channels.
pub fn to_color(rgb: Rgb) -> (r: OmarchyColor)
    ensures
        r == color_of(rgb),
        rgb_of(r) == rgb,
{
    OmarchyColor { r: rgb.red, g: rgb.green, b: rgb.blue }
}

/// The bridge entry of `role`: its color and its three weights of content.
pub open spec fn role_entry(roles: Roles, role: Role) -> OmarchyRole {
    OmarchyRole {
        color: color_of(roles.ground(role)),
        content_main: color_of(roles.levels(role).of(Level::Primary)),
        content_secondary: color_of(roles.levels(role).of(Level::Secondary)),
        content_disabled: color_of(roles.levels(role).of(Level::Disabled)),
    }
}

fn entry_of(roles: &Roles, role: Role) -> (r: OmarchyRole)
    ensures
        r == role_entry(*roles, role),
{
    OmarchyRole {
        color: to_color(roles.color(role)),
        content_main: to_color(roles.content(role, Level::Primary)),
        content_secondary: to_color(roles.content(role, Level::Secondary)),
        content_disabled: to_color(roles.content(role, Level::Disabled)),
    }
}

/// `shade` is `color` with the content `on` gives for it.
pub open spec fn shade_reads<F: Fn(Rgb) -> Rgb>(on: F, color: Rgb, shade: OmarchyShade) -> bool {
    &&& shade.color == color_of(color)
    &&& call_ensures(on, (color,), rgb_of(shade.content))
}

/// `family` is the declared family of `original`, `dark` and `bright`, each shade with its content.
pub open spec fn family_reads<F: Fn(Rgb) -> Rgb>(
    on: F,
    original: Rgb,
    dark: Rgb,
    bright: Rgb,
    family: OmarchyColorFamily,
) -> bool {
    &&& family.declared
    &&& shade_reads(on, original, family.original)
    &&& shade_reads(on, dark, family.dark)
    &&& shade_reads(on, bright, family.bright)
}

/// The slot an optional color keeps when the theme leaves it out: zeros, and not declared.
pub open spec fn absent_family() -> OmarchyColorFamily {
    let black = OmarchyColor { r: 0, g: 0, b: 0 };
    let blank = OmarchyShade { color: black, content: black };
    OmarchyColorFamily { original: blank, dark: blank, bright: blank, declared: false }
}

/// `family` is the family of an optional color: read when all three shades are declared, the
/// absent slot otherwise.
pub open spec fn optional_family_reads<F: Fn(Rgb) -> Rgb>(
    on: F,
    original: Option<Rgb>,
    dark: Option<Rgb>,
    bright: Option<Rgb>,
    family: OmarchyColorFamily,
) -> bool {
    match (original, dark, bright) {
        (Some(o), Some(d), Some(b)) => family_reads(on, o, d, b, family),
        _ => family == absent_family(),
    }
}

/// `families` are the eight colors of `colors`, in the bridge's order: red, green, yellow, blue,
/// cyan, magenta, then the optional orange and brown.
pub open spec fn families_read<F: Fn(Rgb) -> Rgb>(
    on: F,
    colors: ThemeColors,
    families: Seq<OmarchyColorFamily>,
) -> bool {
    &&& families.len() == 8
    &&& family_reads(on, colors.red, colors.dark_red, colors.bright_red, families[0])
    &&& family_reads(on, colors.green, colors.dark_green, colors.bright_green, families[1])
    &&& family_reads(on, colors.yellow, colors.dark_yellow, colors.bright_yellow, families[2])
    &&& family_reads(on, colors.blue, colors.dark_blue, colors.bright_blue, families[3])
    &&& family_reads(on, colors.cyan, colors.dark_cyan, colors.bright_cyan, families[4])
    &&& family_reads(on, colors.magenta, colors.dark_magenta, colors.bright_magenta, families[5])
    &&& optional_family_reads(on, colors.orange, colors.dark_orange, colors.bright_orange, families[6])
    &&& optional_family_reads(on, colors.brown, colors.dark_brown, colors.bright_brown, families[7])
}

fn shade<F: Fn(Rgb) -> Rgb>(color: Rgb, on: &F) -> (r: OmarchyShade)
    requires
        on.requires((color,)),
    ensures
        shade_reads(*on, color, r),
{
    let content = on(color);
    OmarchyShade { color: to_color(color), content: to_color(content) }
}

fn family<F: Fn(Rgb) -> Rgb>(original: Rgb, dark: Rgb, bright: Rgb, on: &F) -> (r: OmarchyColorFamily)
    requires
        forall|c: Rgb| on.requires((c,)),
    ensures
        family_reads(*on, original, dark, bright, r),
{
    OmarchyColorFamily {
        original: shade(original, on),
        dark: shade(dark, on),
        bright: shade(bright, on),
        declared: true,
    }
}

fn optional_family<F: Fn(Rgb) -> Rgb>(
    original: Option<Rgb>,
    dark: Option<Rgb>,
    bright: Option<Rgb>,
    on: &F,
) -> (r: OmarchyColorFamily)
    requires
        forall|c: Rgb| on.requires((c,)),
    ensures
        optional_family_reads(*on, original, dark, bright, r),
{
    match (original, dark, bright) {
        (Some(o), Some(d), Some(b)) => family(o, d, b, on),
        _ => {
            let black = OmarchyColor { r: 0, g: 0, b: 0 };
            let blank = OmarchyShade { color: black, content: black };
            OmarchyColorFamily { original: blank, dark: blank, bright: blank, declared: false }
        },
    }
}

/// The colors the theme declares, in the bridge's order, each as the family of three shades it
/// reads as and each shade with the content `on` gives for it. The two optional colors keep their
/// slot when absent, so the array's shape never depends on what a theme brought.
pub fn declared_colors<F: Fn(Rgb) -> Rgb>(theme: &Theme, on: &F) -> (r: [OmarchyColorFamily; OMARCHY_COLOR_COUNT])
    requires
        forall|c: Rgb| on.requires((c,)),
    ensures
        families_read(*on, theme.colors, r@),
{
    let colors = &theme.colors;
    [
        family(colors.red, colors.dark_red, colors.bright_red, on),
        family(colors.green, colors.dark_green, colors.bright_green, on),
        family(colors.yellow, colors.dark_yellow, colors.bright_yellow, on),
        family(colors.blue, colors.dark_blue, colors.bright_blue, on),
        family(colors.cyan, colors.dark_cyan, colors.bright_cyan, on),
        family(colors.magenta, colors.dark_magenta, colors.bright_magenta, on),
        optional_family(colors.orange, colors.dark_orange, colors.bright_orange, on),
        optional_family(colors.brown, colors.dark_brown, colors.bright_brown, on),
    ]
}

/// The snapshot of a theme whose roles resolved to `roles`: every role in the order of
/// [`Role::ALL`], every declared color with the content `on` gives for each shade, and whether the
/// theme is dark.
pub fn snapshot_of<F: Fn(Rgb) -> Rgb>(theme: &Theme, roles: &Roles, on: &F) -> (r: OmarchySnapshot)
    requires
        forall|c: Rgb| on.requires((c,)),
    ensures
        r.roles@.len() == OMARCHY_ROLE_COUNT,
        forall|i: int| 0 <= i < OMARCHY_ROLE_COUNT ==> r.roles@[i] == role_entry(*roles, #[trigger] role_order()[i]),
        families_read(*on, theme.colors, r.colors@),
        r.dark == (theme.mode == Mode::Dark),
{
    let entries = [
        entry_of(roles, Role::Background),
        entry_of(roles, Role::Elevated),
        entry_of(roles, Role::Recessed),
        entry_of(roles, Role::Border),
        entry_of(roles, Role::Primary),
        entry_of(roles, Role::Selection),
        entry_of(roles, Role::Muted),
        entry_of(roles, Role::Error),
        entry_of(roles, Role::Focus),
        entry_of(roles, Role::Disabled),
    ];
    OmarchySnapshot {
        roles: entries,
        colors: declared_colors(theme, on),
        dark: theme.mode.is_dark(),
    }
}

/// The display names of the colors a snapshot carries, in its order.
pub open spec fn color_names() -> Seq<Seq<char>> {
    seq!["Red"@, "Green"@, "Yellow"@, "Blue"@, "Cyan"@, "Magenta"@, "Orange"@, "Brown"@]
}

/// The display name of the color at `index` in a snapshot, or `None` at or past
/// [`OMARCHY_COLOR_COUNT`].
pub fn color_name(index: usize) -> (r: Option<&'static str>)
    ensures
        index < OMARCHY_COLOR_COUNT ==> (r matches Some(name) && name@ == color_names()[index as int]),
        index >= OMARCHY_COLOR_COUNT ==> r is None,
{
    match index {
        0 => Some("Red"),
        1 => Some("Green"),
        2 => Some("Yellow"),
        3 => Some("Blue"),
        4 => Some("Cyan"),
        5 => Some("Magenta"),
        6 => Some("Orange"),
        7 => Some("Brown"),
        _ => None,
    }
}

/// The display name of a role: the name it is declared under.
pub open spec fn role_name_text(role: Role) -> Seq<char> {
    match role {
        Role::Background => "Background"@,
        Role::Elevated => "Elevated"@,
        Role::Recessed => "Recessed"@,
        Role::Border => "Border"@,
        Role::Primary => "Primary"@,
        Role::Selection => "Selection"@,
        Role::Muted => "Muted"@,
        Role::Error => "Error"@,
        Role::Focus => "Focus"@,
        Role::Disabled => "Disabled"@,
    }
}

/// The display name of the role at `index` in [`Role::ALL`], or `None` past its end.
pub fn role_name(index: usize) -> (r: Option<&'static str>)
    ensures
        index < OMARCHY_ROLE_COUNT ==> (r matches Some(name) && name@ == role_name_text(role_order()[index as int])),
        index >= OMARCHY_ROLE_COUNT ==> r is None,
{
    match Role::at(index) {
        Some(Role::Background) => Some("Background"),
        Some(Role::Elevated) => Some("Elevated"),
        Some(Role::Recessed) => Some("Recessed"),
        Some(Role::Border) => Some("Border"),
        Some(Role::Primary) => Some("Primary"),
        Some(Role::Selection) => Some("Selection"),
        Some(Role::Muted) => Some("Muted"),
        Some(Role::Error) => Some("Error"),
        Some(Role::Focus) => Some("Focus"),
        Some(Role::Disabled) => Some("Disabled"),
        None => None,
    }
}

/// The display name of a representation: the name it is declared under.
pub open spec fn representation_name_text(representation: Representation) -> Seq<char> {
    match representation {
        Representation::Original => "Original"@,
        Representation::Inverted => "Inverted"@,
        Representation::HighContrast => "HighContrast"@,
        Representation::Mono => "Mono"@,
        Representation::Print => "Print"@,
    }
}

/// The display name of the representation at `index` in [`Representation::ALL`], or `None` at or
/// past [`OMARCHY_REPRESENTATION_COUNT`].
pub fn representation_name(index: usize) -> (r: Option<&'static str>)
    ensures
        index < OMARCHY_REPRESENTATION_COUNT ==> (r matches Some(name)
            && name@ == representation_name_text(representation_order()[index as int])),
        index >= OMARCHY_REPRESENTATION_COUNT ==> r is None,
{
    if index >= OMARCHY_REPRESENTATION_COUNT {
        return None;
    }
    match representation_at(index) {
        Representation::Original => Some("Original"),
        Representation::Inverted => Some("Inverted"),
        Representation::HighContrast => Some("HighContrast"),
        Representation::Mono => Some("Mono"),
        Representation::Print => Some("Print"),
    }
}

/// What the bridge writes into a caller's error buffer of `buffer_len` bytes: the message's bytes,
/// cut to leave room for the terminator, then a zero byte — and nothing at all into a buffer of
/// no bytes.
pub open spec fn written_message(message: Seq<u8>, buffer_len: nat) -> Seq<u8> {
    if buffer_len == 0 {
        Seq::empty()
    } else {
        let kept = if message.len() < buffer_len - 1 { message.len() as int } else { buffer_len - 1 };
        message.take(kept).push(0u8)
    }
}

/// The bytes to write into an error buffer of `buffer_len` bytes for `message`: truncated to fit
/// and always zero-terminated when the buffer has room for at least the terminator.
pub fn error_message_bytes(message: &str, buffer_len: usize) -> (r: Vec<u8>)
    ensures
        r@ == written_message(message.spec_bytes(), buffer_len as nat),
        r@.len() <= buffer_len,
        buffer_len > 0 ==> r@.len() > 0 && r@.last() == 0u8,
{
    if buffer_len == 0 {
        return Vec::new();
    }
    let bytes = message.as_bytes();
    let capacity = buffer_len - 1;
    let kept = if bytes.len() < capacity { bytes.len() } else { capacity };
    let mut out: Vec<u8> = Vec::new();
    let mut i: usize = 0;
    while i < kept
        invariant
            i <= kept,
            kept <= bytes@.len(),
            out@ == bytes@.take(i as int),
        decreases kept - i,
    {
        out.push(bytes[i]);
        i = i + 1;
        assert(out@ == bytes@.take(i as int));
    }
    out.push(0u8);
    out
}

/// The family a color's display name stands for in `colors`: the color, its dark shade and its
/// bright shade, each as the theme has it.
pub open spec fn named_family(colors: ThemeColors, name: Seq<char>) -> (Option<Rgb>, Option<Rgb>, Option<Rgb>) {
    if name == "Red"@ {
        (Some(colors.red), Some(colors.dark_red), Some(colors.bright_red))
    } else     if name == "Green"@ {
        (Some(colors.green), Some(colors.dark_green), Some(colors.bright_green))
    } else     if name == "Yellow"@ {
        (Some(colors.yellow), Some(colors.dark_yellow), Some(colors.bright_yellow))
    } else     if name == "Blue"@ {
        (Some(colors.blue), Some(colors.dark_blue), Some(colors.bright_blue))
    } else     if name == "Cyan"@ {
        (Some(colors.cyan), Some(colors.dark_cyan), Some(colors.bright_cyan))
    } else     if name == "Magenta"@ {
        (Some(colors.magenta), Some(colors.dark_magenta), Some(colors.bright_magenta))
    } else if name == "Orange"@ {
        (colors.orange, colors.dark_orange, colors.bright_orange)
    } else if name == "Brown"@ {
        (colors.brown, colors.dark_brown, colors.bright_brown)
    } else {
        (None, None, None)
    }
}

/// `family` carries the colors `name` stands for, declared when all three are there, and is the
/// absent slot otherwise.
pub open spec fn family_is(colors: ThemeColors, name: Seq<char>, family: OmarchyColorFamily) -> bool {
    match named_family(colors, name) {
        (Some(original), Some(dark), Some(bright)) => {
            &&& family.declared
            &&& family.original.color == color_of(original)
            &&& family.dark.color == color_of(dark)
            &&& family.bright.color == color_of(bright)
        },
        _ => family == absent_family(),
    }
}

/// Every family of a snapshot is the one its name says: the family at index `i` carries the
/// colors of the color [`color_name`] names at `i` — red's at 0, green's at 1, yellow's at 2, and so
/// on to brown's at 7.
pub proof fn lemma_each_family_is_the_color_its_name_names<F: Fn(Rgb) -> Rgb>(
    on: F,
    colors: ThemeColors,
    families: Seq<OmarchyColorFamily>,
)
    requires
        families_read(on, colors, families),
    ensures
        families.len() == color_names().len(),
        forall|i: int| 0 <= i < families.len() ==> #[trigger] family_is(colors, color_names()[i], families[i]),
{
    reveal_strlit("Red");
    reveal_strlit("Green");
    reveal_strlit("Yellow");
    reveal_strlit("Blue");
    reveal_strlit("Cyan");
    reveal_strlit("Magenta");
    reveal_strlit("Orange");
    reveal_strlit("Brown");
    assert("Red"@.len() == 3 && "Red"@[0] == 'R' && "Red"@[1] == 'e');
    assert("Green"@.len() == 5 && "Green"@[0] == 'G' && "Green"@[1] == 'r');
    assert("Yellow"@.len() == 6 && "Yellow"@[0] == 'Y' && "Yellow"@[1] == 'e');
    assert("Blue"@.len() == 4 && "Blue"@[0] == 'B' && "Blue"@[1] == 'l');
    assert("Cyan"@.len() == 4 && "Cyan"@[0] == 'C' && "Cyan"@[1] == 'y');
    assert("Magenta"@.len() == 7 && "Magenta"@[0] == 'M' && "Magenta"@[1] == 'a');
    assert("Orange"@.len() == 6 && "Orange"@[0] == 'O' && "Orange"@[1] == 'r');
    assert("Brown"@.len() == 5 && "Brown"@[0] == 'B' && "Brown"@[1] == 'r');
    assert forall|i: int| 0 <= i < families.len() implies #[trigger] family_is(colors, color_names()[i], families[i]) by {
        if i == 0 {
            assert(color_names()[0] == "Red"@);
        } else if i == 1 {
            assert(color_names()[1] == "Green"@);
        } else if i == 2 {
            assert(color_names()[2] == "Yellow"@);
        } else if i == 3 {
            assert(color_names()[3] == "Blue"@);
        } else if i == 4 {
            assert(color_names()[4] == "Cyan"@);
        } else if i == 5 {
            assert(color_names()[5] == "Magenta"@);
        } else if i == 6 {
            assert(color_names()[6] == "Orange"@);
        } else {
            assert(color_names()[7] == "Brown"@);
        }
    }
}

} // verus!
