//! THEME errors: they tell a missing theme apart from an unreadable file or an unusable key.

use vstd::prelude::*;
use vstd::string::StringExecFns;

verus! {

/// Why a theme could not be turned into colors. Paths and the causes reported by the system or
/// by the TOML reader are carried as the text they render to.
#[derive(Debug)]
pub enum ThemeError {
    /// No theme file exists at this path.
    NotFound(String),
    /// The theme file exists but could not be read: the path, then the cause.
    Unreadable(String, String),
    /// The theme file is not valid TOML: the path, then the reader's message.
    InvalidToml(String, String),
    /// The theme omits a key the color contract requires.
    MissingKey(&'static str),
    /// `mode` holds something other than `dark` or `light`.
    InvalidMode(String),
    /// A color key holds something other than `#rrggbb`.
    InvalidColor(&'static str, String),
    /// The theme file could not be watched for changes.
    Watch(String),
    /// The change-notification channel could not be created.
    Signal(String),
}

/// The mathematical value of a [`ThemeError`]: every text as its characters.
pub enum ThemeErrorView {
    NotFound(Seq<char>),
    Unreadable(Seq<char>, Seq<char>),
    InvalidToml(Seq<char>, Seq<char>),
    MissingKey(Seq<char>),
    InvalidMode(Seq<char>),
    InvalidColor(Seq<char>, Seq<char>),
    Watch(Seq<char>),
    Signal(Seq<char>),
}

impl View for ThemeError {
    type V = ThemeErrorView;

    open spec fn view(&self) -> ThemeErrorView {
        match self {
            ThemeError::NotFound(path) => ThemeErrorView::NotFound(path@),
            ThemeError::Unreadable(path, cause) => ThemeErrorView::Unreadable(path@, cause@),
            ThemeError::InvalidToml(path, cause) => ThemeErrorView::InvalidToml(path@, cause@),
            ThemeError::MissingKey(key) => ThemeErrorView::MissingKey(key@),
            ThemeError::InvalidMode(value) => ThemeErrorView::InvalidMode(value@),
            ThemeError::InvalidColor(key, value) => ThemeErrorView::InvalidColor(key@, value@),
            ThemeError::Watch(cause) => ThemeErrorView::Watch(cause@),
            ThemeError::Signal(cause) => ThemeErrorView::Signal(cause@),
        }
    }
}

/// The sentence an error reads as, for a person.
pub open spec fn message_text(error: ThemeErrorView) -> Seq<char> {
    match error {
        ThemeErrorView::NotFound(path) => "no theme found at "@ + path,
        ThemeErrorView::Unreadable(path, cause) => "cannot read "@ + path + ": "@ + cause,
        ThemeErrorView::InvalidToml(path, cause) => "invalid TOML in "@ + path + ": "@ + cause,
        ThemeErrorView::MissingKey(key) => "the theme does not declare `"@ + key + "`"@,
        ThemeErrorView::InvalidMode(value) => "`mode` expected \"dark\" or \"light\", got `"@ + value
            + "`"@,
        ThemeErrorView::InvalidColor(key, value) => "`"@ + key + "` expected an #rrggbb color, got `"@
            + value + "`"@,
        ThemeErrorView::Watch(cause) => "cannot watch the theme for changes: "@ + cause,
        ThemeErrorView::Signal(cause) => "cannot set up change notification: "@ + cause,
    }
}

fn joined(parts: &[&str]) -> (r: String)
    ensures
        r@ == parts@.fold_left(Seq::<char>::empty(), |acc: Seq<char>, part: &str| acc + part@),
{
    let mut text = String::new();
    let mut i: usize = 0;
    while i < parts.len()
        invariant
            0 <= i <= parts@.len(),
            text@ == parts@.take(i as int).fold_left(Seq::<char>::empty(), |acc: Seq<char>, part: &str| acc + part@),
        decreases parts@.len() - i,
    {
        assert(parts@.take(i + 1).drop_last() =~= parts@.take(i as int));
        text.append(parts[i]);
        i = i + 1;
    }
    assert(parts@.take(parts@.len() as int) =~= parts@);
    text
}

impl ThemeError {
    /// The sentence this error reads as, for a person.
    pub fn message(&self) -> (r: String)
        ensures
            r@ == message_text(self@),
    {
        let text = match self {
            ThemeError::NotFound(path) => joined(&["no theme found at ", path.as_str()]),
            ThemeError::Unreadable(path, cause) => joined(&["cannot read ", path.as_str(), ": ", cause.as_str()]),
            ThemeError::InvalidToml(path, cause) => joined(&["invalid TOML in ", path.as_str(), ": ", cause.as_str()]),
            ThemeError::MissingKey(key) => joined(&["the theme does not declare `", key, "`"]),
            ThemeError::InvalidMode(value) => joined(&["`mode` expected \"dark\" or \"light\", got `", value.as_str(), "`"]),
            ThemeError::InvalidColor(key, value) => joined(&["`", key, "` expected an #rrggbb color, got `", value.as_str(), "`"]),
            ThemeError::Watch(cause) => joined(&["cannot watch the theme for changes: ", cause.as_str()]),
            ThemeError::Signal(cause) => joined(&["cannot set up change notification: ", cause.as_str()]),
        };
        proof {
            reveal_with_fuel(Seq::fold_left, 6);
        }
        text
    }
}

} // verus!
