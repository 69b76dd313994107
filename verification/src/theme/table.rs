//! The TOML document a theme is written in, read with the `toml` crate and looked up key by key.

use vstd::prelude::*;

verus! {

#[verifier::external_type_specification]
#[verifier::external_body]
#[verifier::reject_recursive_types(K)]
#[verifier::reject_recursive_types(V)]
pub struct ExTomlMap<K, V>(toml::map::Map<K, V>);

#[verifier::external_type_specification]
#[verifier::external_body]
pub struct ExTomlValue(toml::Value);

/// What a TOML table holds, key by key: the text of a string value, or the rendering of any
/// other value (a number, a table, an array, …) as `toml::Value` displays it.
pub type TomlEntries = Map<Seq<char>, Result<Seq<char>, Seq<char>>>;

/// The entries of a `toml::Table`, each taken as [`TomlEntries`] describes.
pub uninterp spec fn toml_table_entries(table: toml::Table) -> TomlEntries;

/// What `toml::from_str` makes of a text read as a table: its entries, or the message of the
/// error it reports.
pub uninterp spec fn toml_document(text: Seq<char>) -> Result<TomlEntries, Seq<char>>;

/// Whether a table is one `toml::from_str` read from a text. Only such a table is looked up: a
/// table built in code can hold a `toml::Value::Datetime` with neither a date nor a time, and
/// `toml::Value`'s `Display` panics on it, while every datetime read from a text has one.
pub uninterp spec fn parsed_table(table: toml::Table) -> bool;

/// Reads `text` as a TOML table with `toml::from_str`. Claimed: the result is the one
/// `toml_document` names for that text — the table's entries on success, the error's message
/// (`toml::de::Error`'s `Display`) on failure — and a table it returns is a parsed one. Which
/// texts parse, and to what, is left to the name.
#[verifier::external_body]
pub fn parse_table(text: &str) -> (r: Result<toml::Table, String>)
    ensures
        r matches Ok(table) ==> parsed_table(table),
        match (r, toml_document(text@)) {
            (Ok(table), Ok(entries)) => toml_table_entries(table) == entries,
            (Err(message), Err(expected)) => message@ == expected,
            _ => false,
        },
{
    match toml::from_str::<toml::Table>(text) {
        Ok(table) => Ok(table),
        Err(cause) => Err(cause.to_string()),
    }
}

/// Looks `key` up with `toml::map::Map::get`. Claimed: `None` exactly when the table has no such
/// key; otherwise the entry `toml_table_entries` records for it — the text of a string value
/// (`toml::Value::String`), or the `Display` rendering of any other value. Only a table
/// [`parse_table`] returned is accepted, since rendering a datetime built in code can panic.
#[verifier::external_body]
pub fn table_entry(table: &toml::Table, key: &str) -> (r: Option<Result<String, String>>)
    requires
        parsed_table(*table),
    ensures
        match r {
            None => !toml_table_entries(*table).contains_key(key@),
            Some(Ok(text)) => toml_table_entries(*table).contains_key(key@)
                && toml_table_entries(*table)[key@] == Ok::<Seq<char>, Seq<char>>(text@),
            Some(Err(rendered)) => toml_table_entries(*table).contains_key(key@)
                && toml_table_entries(*table)[key@] == Err::<Seq<char>, Seq<char>>(rendered@),
        },
{
    match table.get(key) {
        None => None,
        Some(toml::Value::String(text)) => Some(Ok(text.clone())),
        Some(other) => Some(Err(other.to_string())),
    }
}

} // verus!
