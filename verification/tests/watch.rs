//! What a watcher keeps between two collections, and which file events concern the theme.

use omarchy_theme::theme::{read_again, theme_from_toml, touches, Latest, READ_ATTEMPTS};
use omarchy_theme::{Mode, Rgb, Theme, ThemeError};

const EVERFOREST: &str = r##"mode = "dark"
accent = "#7fbbb3"
selection = "#3d484d"
muted = "#859289"
background = "#2d353b"
dark_background = "#232a2e"
darker_background = "#1e2326"
lighter_background = "#343f44"
foreground = "#d3c6aa"
dark_foreground = "#9da9a0"
light_foreground = "#e4dcc8"
bright_foreground = "#fdf6e3"
red = "#e67e80"
yellow = "#dbbc7f"
green = "#a7c080"
cyan = "#83c092"
blue = "#7fbbb3"
magenta = "#d699b6""##;

fn same(color: Rgb) -> Rgb {
    color
}

fn theme(text: &str) -> Theme {
    theme_from_toml("colors.toml", text, same, same).unwrap()
}

fn dark() -> Theme {
    theme(EVERFOREST)
}

fn light() -> Theme {
    theme(&EVERFOREST.replace("mode = \"dark\"", "mode = \"light\""))
}

fn named(names: &[&str]) -> Vec<Option<Vec<u8>>> {
    names.iter().map(|name| Some(name.as_bytes().to_vec())).collect()
}

#[test]
fn starts_on_the_theme_that_is_there_with_nothing_waiting() {
    let mut slot = Latest::new(dark());

    assert_eq!(slot.current(), dark());
    assert_eq!(slot.take_changed(), None);
}

#[test]
fn hands_over_the_newest_of_several_changes() {
    let mut slot = Latest::new(dark());
    slot.publish(light());
    slot.publish(dark());
    slot.publish(light());

    assert_eq!(slot.take_changed(), Some(light()));
    assert_eq!(slot.take_changed(), None);
    assert_eq!(slot.current(), light());
}

#[test]
fn keeps_the_last_valid_theme_when_a_reload_fails() {
    let mut slot = Latest::new(dark());
    let failed = theme_from_toml("colors.toml", "mode = \"dark\"\naccent = \n[[[", same, same);
    assert!(failed.is_err());

    assert!(!slot.offer(failed));
    assert_eq!(slot.current(), dark());
    assert_eq!(slot.take_changed(), None);
}

#[test]
fn recovers_once_the_theme_is_whole_again() {
    let mut slot = Latest::new(dark());
    assert!(!slot.offer(Err(ThemeError::MissingKey("accent"))));
    assert!(slot.offer(Ok(light())));

    assert_eq!(slot.current().mode, Mode::Light);
    assert_eq!(slot.take_changed(), Some(light()));
}

#[test]
fn reports_nothing_when_the_theme_is_rewritten_unchanged() {
    let mut slot = Latest::new(dark());

    assert!(!slot.offer(Ok(dark())));
    assert_eq!(slot.take_changed(), None);
}

#[test]
fn keeps_a_waiting_change_when_an_unchanged_theme_follows() {
    let mut slot = Latest::new(dark());
    assert!(slot.offer(Ok(light())));
    assert!(!slot.offer(Ok(light())));

    assert_eq!(slot.take_changed(), Some(light()));
}

#[test]
fn retries_a_failed_read_a_few_times_only() {
    assert!(!read_again(1, false));
    assert!(read_again(1, true));
    assert!(read_again(READ_ATTEMPTS - 1, true));
    assert!(!read_again(READ_ATTEMPTS, true));
    assert_eq!(READ_ATTEMPTS, 5);
}

#[test]
fn notices_an_event_on_the_theme_file_or_its_directory() {
    let file = Some(b"colors.toml".to_vec());
    let directory = Some(b"theme".to_vec());

    assert!(touches(false, &named(&["colors.toml"]), &file, &directory));
    assert!(touches(false, &named(&["other", "theme"]), &file, &directory));
    assert!(!touches(false, &named(&["colors.toml.incoming"]), &file, &directory));
    assert!(!touches(false, &vec![None], &file, &directory));
    assert!(!touches(false, &Vec::new(), &file, &directory));
}

#[test]
fn ignores_a_mere_access() {
    let file = Some(b"colors.toml".to_vec());
    let directory = Some(b"theme".to_vec());

    assert!(!touches(true, &named(&["colors.toml"]), &file, &directory));
}

#[test]
fn matches_no_path_against_a_name_that_is_missing() {
    assert!(!touches(false, &vec![None], &None, &None));
    assert!(!touches(false, &named(&["colors.toml"]), &None, &None));
}
