//! Reading a theme: from the text of a `colors.toml` to a [`Theme`], or to an error that says why
//! not. Fetching that text from disk is the caller's part.

use vstd::prelude::*;

use super::colors::{colors_error, colors_from, ThemeColors};
use super::error::{ThemeError, ThemeErrorView};
use super::mode::{mode_of_text, Mode};
use super::rgb::Rgb;
use super::table::{parse_table, parsed_table, table_entry, toml_document, toml_table_entries, TomlEntries};

verus! {

/// A theme as the system declares it: its mode and its base colors.
#[derive(Debug, Clone, Copy, PartialEq, Eq, Structural)]
pub struct Theme {
    pub mode: Mode,
    pub colors: ThemeColors,
}

/// The mode a table declares under `mode`, or why it declares none.
pub open spec fn declared_mode(entries: TomlEntries) -> Result<Mode, ThemeErrorView> {
    let key = seq!['m', 'o', 'd', 'e'];
    if !entries.contains_key(key) {
        Err(ThemeErrorView::MissingKey(key))
    } else {
        match entries[key] {
            Err(rendered) => Err(ThemeErrorView::InvalidMode(rendered)),
            Ok(text) => match mode_of_text(text) {
                Some(mode) => Ok(mode),
                None => Err(ThemeErrorView::InvalidMode(text)),
            },
        }
    }
}

fn read_mode(table: &toml::Table) -> (r: Result<Mode, ThemeError>)
    requires
        parsed_table(*table),
    ensures
        match declared_mode(toml_table_entries(*table)) {
            Ok(mode) => r == Ok::<Mode, ThemeError>(mode),
            Err(expected) => (r matches Err(error) && error@ == expected),
        },
{
    proof {
        reveal_strlit("mode");
        assert("mode"@ =~= seq!['m', 'o', 'd', 'e']);
    }
    match table_entry(table, "mode") {
        None => Err(ThemeError::MissingKey("mode")),
        Some(Err(rendered)) => Err(ThemeError::InvalidMode(rendered)),
        Some(Ok(text)) => Mode::parse(text.as_str()),
    }
}

/// The theme a `colors.toml` at `path` declares, given its `text`. The path only names the file
/// in the error a text that is not TOML is refused with. Shades the theme leaves out come from
/// `darker` and `brighter`, as [`ThemeColors::from_table`] says.
pub fn theme_from_toml<D: Fn(Rgb) -> Rgb, B: Fn(Rgb) -> Rgb>(
    path: &str,
    text: &str,
    darker: D,
    brighter: B,
) -> (r: Result<Theme, ThemeError>)
    requires
        forall|c: Rgb| darker.requires((c,)),
        forall|c: Rgb| brighter.requires((c,)),
    ensures
        match toml_document(text@) {
            Err(message) => (r matches Err(error) && error@ == ThemeErrorView::InvalidToml(path@, message)),
            Ok(entries) => match declared_mode(entries) {
                Err(expected) => (r matches Err(error) && error@ == expected),
                Ok(mode) => match colors_error(entries) {
                    Some(expected) => (r matches Err(error) && error@ == expected),
                    None => (r matches Ok(theme) && theme.mode == mode && colors_from(entries, darker, brighter, theme.colors)),
                },
            },
        },
{
    let table = match parse_table(text) {
        Ok(table) => table,
        Err(message) => return Err(ThemeError::InvalidToml(path.to_owned(), message)),
    };
    let mode = read_mode(&table)?;
    let colors = ThemeColors::from_table(&table, darker, brighter)?;
    Ok(Theme { mode, colors })
}

} // verus!
