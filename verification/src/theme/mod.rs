//! THEME — the keys a theme declares, read without interpreting them, and what a watcher keeps of
//! them between two collections.

mod colors;
mod error;
mod mode;
mod reader;
mod rgb;
mod table;
mod watch;

pub use colors::{
    colors_error, colors_from, declared, lemma_a_table_is_accepted_exactly_when_every_read_key_is_usable,
    lemma_each_key_and_shade_comes_from_its_own_name, lookup,
    ThemeColors,
};
pub use error::{message_text, ThemeError, ThemeErrorView};
pub use mode::{lemma_flip_is_an_involution, mode_of_text, Mode};
pub use reader::{declared_mode, theme_from_toml, Theme};
pub use rgb::{
    color_of_text, hex_text, hex_value, is_color_text, is_hex_digit, lemma_render_then_parse, Rgb,
};
pub use table::{parse_table, parsed_table, table_entry, toml_document, toml_table_entries, TomlEntries};
pub use watch::{
    after_offer, after_publish, after_take, lemma_a_change_is_collected_once,
    lemma_a_failed_or_unchanged_read_is_not_reported, lemma_a_new_theme_is_reported,
    lemma_only_the_newest_survives, name_view, names_the_theme, read_again, theme_read, touches,
    Latest, LatestView, READ_ATTEMPTS,
};
